use crate::numeric::Numeric;
use crate::vector::Vector2;
use crate::vector::Vector3;
use vstd::prelude::*;

verus! {

/// The components `s` in the first lanes of `lanes`, and the multiplicative
/// identity in those that are left.
pub open spec fn padded<N: Numeric>(s: Seq<N>, lanes: nat) -> Seq<N> {
    Seq::new(
        lanes,
        |i: int|
            if i < s.len() {
                s[i]
            } else {
                N::one_spec()
            },
    )
}

impl<N> Vector2<N> where N: Numeric + Copy {
    /// The vector packed into `L` lanes: its components first, then ones.
    pub fn simdalize<const L: usize>(self) -> (lanes: [N; L])
        requires
            2 <= L,
        ensures
            lanes@ =~= padded(self@, L as nat),
    {
        let mut lanes = [N::one(); L];
        lanes[0] = self.x;
        lanes[1] = self.y;
        lanes
    }

    /// The vector held in the first lanes of `lanes`; the lanes behind them
    /// are dropped.
    pub fn from_lanes<const L: usize>(lanes: [N; L]) -> (v: Vector2<N>)
        requires
            2 <= L,
        ensures
            v@ =~= lanes@.take(2),
    {
        Vector2 { x: lanes[0], y: lanes[1] }
    }
}

impl<N> Vector3<N> where N: Numeric + Copy {
    /// The vector packed into `L` lanes: its components first, then ones.
    pub fn simdalize<const L: usize>(self) -> (lanes: [N; L])
        requires
            3 <= L,
        ensures
            lanes@ =~= padded(self@, L as nat),
    {
        let mut lanes = [N::one(); L];
        lanes[0] = self.x;
        lanes[1] = self.y;
        lanes[2] = self.z;
        lanes
    }

    /// The vector held in the first lanes of `lanes`; the lanes behind them
    /// are dropped.
    pub fn from_lanes<const L: usize>(lanes: [N; L]) -> (v: Vector3<N>)
        requires
            3 <= L,
        ensures
            v@ =~= lanes@.take(3),
    {
        Vector3 { x: lanes[0], y: lanes[1], z: lanes[2] }
    }
}

/// Unpacking what was packed gives the components again.
pub proof fn unpack_inverts_pack<N: Numeric>(s: Seq<N>, lanes: nat)
    requires
        s.len() <= lanes,
    ensures
        padded(s, lanes).take(s.len() as int) =~= s,
{
}

/// The padding cannot be seen in a result: where two padded vectors are
/// combined lane by lane by `op` and the padding is dropped, what is left is
/// the vectors' components combined by `op` index by index.
pub proof fn padding_is_invisible<N: Numeric>(
    a: Seq<N>,
    b: Seq<N>,
    lanes: nat,
    op: spec_fn(N, N) -> N,
)
    requires
        a.len() == b.len(),
        a.len() <= lanes,
    ensures
        Seq::new(lanes, |i: int| op(padded(a, lanes)[i], padded(b, lanes)[i])).take(
            a.len() as int,
        ) =~= Seq::new(a.len(), |i: int| op(a[i], b[i])),
{
}

} // verus!
