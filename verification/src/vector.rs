pub mod vector2;
pub mod vector3;
pub mod vector4;
pub mod vector5;

pub use vector2::Vector2;
pub use vector3::Vector3;
pub use vector4::Vector4;
pub use vector5::Vector5;

use crate::numeric::Numeric;
use std::ops::Mul;
use vstd::prelude::*;
use vstd::std_specs::cmp::PartialEqSpec;
use vstd::std_specs::ops::AddSpec;
use vstd::std_specs::ops::MulSpec;

verus! {

/// A vector over the numeric type `N`.
pub trait Vector<N>: Sized where N: Numeric {
    /// Whether the product of the two vectors is zero.
    fn is_perpendicular_to(self, v_prime: Self) -> (r: bool) where Self: Mul<Self, Output = N>
        requires
            self.mul_req(v_prime),
        ensures
            Self::obeys_mul_spec() && N::obeys_eq_spec() ==> r == self.mul_spec(v_prime).eq_spec(
                &N::zero_spec(),
            ),
    {
        (self * v_prime) == N::zero()
    }
}

/// The sum, taken from the first index to the last, of the products of the
/// elements of `a` and `b` at each index; zero where there are none.
pub open spec fn dot<N: Numeric>(a: Seq<N>, b: Seq<N>) -> N
    decreases a.len(),
{
    if a.len() == 0 {
        N::zero_spec()
    } else if a.len() == 1 {
        a[0].mul_spec(b[0])
    } else {
        dot(a.drop_last(), b.drop_last()).add_spec(a.last().mul_spec(b.last()))
    }
}

/// A vector of any length: a view of a slice of numeric elements.
pub struct VectorN<'a, N: Numeric + 'a>(&'a [N]);

impl<'a, N: Numeric> View for VectorN<'a, N> {
    type V = Seq<N>;

    /// The elements of the slice, in order.
    closed spec fn view(&self) -> Seq<N> {
        self.0@
    }
}

impl<'a, N: Numeric> VectorN<'a, N> {
    /// The vector whose components are the elements of `elements`.
    pub fn new(elements: &'a [N]) -> (v: VectorN<'a, N>)
        ensures
            v@ == elements@,
    {
        VectorN(elements)
    }

    /// The slice that the vector is a view of.
    pub fn as_slice(&self) -> (elements: &'a [N])
        ensures
            elements@ == self@,
    {
        self.0
    }
}

} // verus!
