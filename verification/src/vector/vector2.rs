use crate::numeric::Numeric;
use crate::table::Columnar;
use crate::table::Tabular;
use crate::vector::dot;
use crate::vector::Vector;
use std::cmp::Ordering;
use std::ops::Add;
use std::ops::Div;
use std::ops::Index;
use std::ops::IndexMut;
use std::ops::Mul;
use std::ops::Rem;
use std::ops::Sub;
use vstd::prelude::*;
use vstd::std_specs::cmp::PartialEqSpec;
use vstd::std_specs::cmp::PartialOrdSpec;
use vstd::std_specs::convert::FromSpec;
use vstd::std_specs::ops::AddSpec;
use vstd::std_specs::ops::DivSpec;
use vstd::std_specs::ops::MulSpec;
use vstd::std_specs::ops::RemSpec;
use vstd::std_specs::ops::SubSpec;

verus! {

/// A 2D vector of any numeric type.
#[derive(Clone, Copy, Eq, Debug)]
pub struct Vector2<N> {
    pub x: N,
    pub y: N,
}

impl<N> View for Vector2<N> {
    type V = Seq<N>;

    /// The components in order.
    open spec fn view(&self) -> Seq<N> {
        seq![self.x, self.y]
    }
}

impl<N: Default> Default for Vector2<N> {
    /// Every component is a default value of the element type.
    fn default() -> (r: Vector2<N>)
        ensures
            call_ensures(N::default, (), r.x),
            call_ensures(N::default, (), r.y),
    {
        Vector2 { x: N::default(), y: N::default() }
    }
}

impl<N: PartialEq> PartialEq for Vector2<N> {
    fn eq(&self, other: &Vector2<N>) -> (r: bool) {
        self.x == other.x && self.y == other.y
    }
}

impl<N: PartialEq> vstd::std_specs::cmp::PartialEqSpecImpl for Vector2<N> {
    open spec fn obeys_eq_spec() -> bool {
        N::obeys_eq_spec()
    }

    /// Two vectors are equal where all their components are.
    open spec fn eq_spec(&self, other: &Vector2<N>) -> bool {
        self.x.eq_spec(&other.x) && self.y.eq_spec(&other.y)
    }
}

impl<N: PartialOrd> PartialOrd for Vector2<N> {
    fn partial_cmp(&self, other: &Vector2<N>) -> (r: Option<Ordering>) {
        match self.x.partial_cmp(&other.x) {
            Some(Ordering::Equal) => self.y.partial_cmp(&other.y),
            unequal => unequal,
        }
    }
}

impl<N: PartialOrd> vstd::std_specs::cmp::PartialOrdSpecImpl for Vector2<N> {
    open spec fn obeys_partial_cmp_spec() -> bool {
        N::obeys_partial_cmp_spec()
    }

    /// Vectors are ordered by the first component in which they differ.
    open spec fn partial_cmp_spec(&self, other: &Vector2<N>) -> Option<Ordering> {
        match self.x.partial_cmp_spec(&other.x) {
            Some(Ordering::Equal) => self.y.partial_cmp_spec(&other.y),
            unequal => unequal,
        }
    }
}

impl<N> Add<Vector2<N>> for Vector2<N> where
    N: Add<Output = N> + Copy,
{
    type Output = Vector2<N>;

    /// The sum of two vectors, component by component: whatever the
    /// element type, each component of the result is a result of its `+`
    /// on the operands' components.
    fn add(self, rhs: Vector2<N>) -> (r: Vector2<N>)
        ensures
            N::obeys_add_spec() ==> r@ =~= Seq::new(2, |i: int| self@[i].add_spec(rhs@[i])),
            call_ensures(N::add, (self.x, rhs.x), r.x),
            call_ensures(N::add, (self.y, rhs.y), r.y),
    {
        Vector2 { x: self.x + rhs.x, y: self.y + rhs.y }
    }
}

impl<N> vstd::std_specs::ops::AddSpecImpl<Vector2<N>> for Vector2<N> where
    N: Add<Output = N> + Copy,
{
    open spec fn obeys_add_spec() -> bool {
        N::obeys_add_spec()
    }

    /// Allowed where the element type allows it at every index.
    open spec fn add_req(self, rhs: Vector2<N>) -> bool {
        self.x.add_req(rhs.x) && self.y.add_req(rhs.y)
    }

    open spec fn add_spec(self, rhs: Vector2<N>) -> Vector2<N> {
        Vector2 { x: self.x.add_spec(rhs.x), y: self.y.add_spec(rhs.y) }
    }
}

impl<N> Add<N> for Vector2<N> where N: Add<Output = N> + Copy {
    type Output = Vector2<N>;

    /// The sum of each component and the scalar `rhs`: whatever the
    /// element type, each component of the result is a result of its `+`
    /// on the component and the scalar.
    fn add(self, rhs: N) -> (r: Vector2<N>)
        ensures
            N::obeys_add_spec() ==> r@ =~= Seq::new(2, |i: int| self@[i].add_spec(rhs)),
            call_ensures(N::add, (self.x, rhs), r.x),
            call_ensures(N::add, (self.y, rhs), r.y),
    {
        Vector2 { x: self.x + rhs, y: self.y + rhs }
    }
}

impl<N> vstd::std_specs::ops::AddSpecImpl<N> for Vector2<N> where N: Add<Output = N> + Copy {
    open spec fn obeys_add_spec() -> bool {
        N::obeys_add_spec()
    }

    /// Allowed where the element type allows it for every component.
    open spec fn add_req(self, rhs: N) -> bool {
        self.x.add_req(rhs) && self.y.add_req(rhs)
    }

    open spec fn add_spec(self, rhs: N) -> Vector2<N> {
        Vector2 { x: self.x.add_spec(rhs), y: self.y.add_spec(rhs) }
    }
}

impl<N> Sub<Vector2<N>> for Vector2<N> where
    N: Sub<Output = N> + Copy,
{
    type Output = Vector2<N>;

    /// The difference of two vectors, component by component: whatever the
    /// element type, each component of the result is a result of its `-`
    /// on the operands' components.
    fn sub(self, rhs: Vector2<N>) -> (r: Vector2<N>)
        ensures
            N::obeys_sub_spec() ==> r@ =~= Seq::new(2, |i: int| self@[i].sub_spec(rhs@[i])),
            call_ensures(N::sub, (self.x, rhs.x), r.x),
            call_ensures(N::sub, (self.y, rhs.y), r.y),
    {
        Vector2 { x: self.x - rhs.x, y: self.y - rhs.y }
    }
}

impl<N> vstd::std_specs::ops::SubSpecImpl<Vector2<N>> for Vector2<N> where
    N: Sub<Output = N> + Copy,
{
    open spec fn obeys_sub_spec() -> bool {
        N::obeys_sub_spec()
    }

    /// Allowed where the element type allows it at every index.
    open spec fn sub_req(self, rhs: Vector2<N>) -> bool {
        self.x.sub_req(rhs.x) && self.y.sub_req(rhs.y)
    }

    open spec fn sub_spec(self, rhs: Vector2<N>) -> Vector2<N> {
        Vector2 { x: self.x.sub_spec(rhs.x), y: self.y.sub_spec(rhs.y) }
    }
}

impl<N> Sub<N> for Vector2<N> where N: Sub<Output = N> + Copy {
    type Output = Vector2<N>;

    /// The difference of each component and the scalar `rhs`: whatever the
    /// element type, each component of the result is a result of its `-`
    /// on the component and the scalar.
    fn sub(self, rhs: N) -> (r: Vector2<N>)
        ensures
            N::obeys_sub_spec() ==> r@ =~= Seq::new(2, |i: int| self@[i].sub_spec(rhs)),
            call_ensures(N::sub, (self.x, rhs), r.x),
            call_ensures(N::sub, (self.y, rhs), r.y),
    {
        Vector2 { x: self.x - rhs, y: self.y - rhs }
    }
}

impl<N> vstd::std_specs::ops::SubSpecImpl<N> for Vector2<N> where N: Sub<Output = N> + Copy {
    open spec fn obeys_sub_spec() -> bool {
        N::obeys_sub_spec()
    }

    /// Allowed where the element type allows it for every component.
    open spec fn sub_req(self, rhs: N) -> bool {
        self.x.sub_req(rhs) && self.y.sub_req(rhs)
    }

    open spec fn sub_spec(self, rhs: N) -> Vector2<N> {
        Vector2 { x: self.x.sub_spec(rhs), y: self.y.sub_spec(rhs) }
    }
}

impl<N> Div<Vector2<N>> for Vector2<N> where
    N: Div<Output = N> + Copy,
{
    type Output = Vector2<N>;

    /// The quotient of two vectors, component by component: whatever the
    /// element type, each component of the result is a result of its `/`
    /// on the operands' components.
    fn div(self, rhs: Vector2<N>) -> (r: Vector2<N>)
        ensures
            N::obeys_div_spec() ==> r@ =~= Seq::new(2, |i: int| self@[i].div_spec(rhs@[i])),
            call_ensures(N::div, (self.x, rhs.x), r.x),
            call_ensures(N::div, (self.y, rhs.y), r.y),
    {
        Vector2 { x: self.x / rhs.x, y: self.y / rhs.y }
    }
}

impl<N> vstd::std_specs::ops::DivSpecImpl<Vector2<N>> for Vector2<N> where
    N: Div<Output = N> + Copy,
{
    open spec fn obeys_div_spec() -> bool {
        N::obeys_div_spec()
    }

    /// Allowed where the element type allows it at every index.
    open spec fn div_req(self, rhs: Vector2<N>) -> bool {
        self.x.div_req(rhs.x) && self.y.div_req(rhs.y)
    }

    open spec fn div_spec(self, rhs: Vector2<N>) -> Vector2<N> {
        Vector2 { x: self.x.div_spec(rhs.x), y: self.y.div_spec(rhs.y) }
    }
}

impl<N> Div<N> for Vector2<N> where N: Div<Output = N> + Copy {
    type Output = Vector2<N>;

    /// The quotient of each component and the scalar `rhs`: whatever the
    /// element type, each component of the result is a result of its `/`
    /// on the component and the scalar.
    fn div(self, rhs: N) -> (r: Vector2<N>)
        ensures
            N::obeys_div_spec() ==> r@ =~= Seq::new(2, |i: int| self@[i].div_spec(rhs)),
            call_ensures(N::div, (self.x, rhs), r.x),
            call_ensures(N::div, (self.y, rhs), r.y),
    {
        Vector2 { x: self.x / rhs, y: self.y / rhs }
    }
}

impl<N> vstd::std_specs::ops::DivSpecImpl<N> for Vector2<N> where N: Div<Output = N> + Copy {
    open spec fn obeys_div_spec() -> bool {
        N::obeys_div_spec()
    }

    /// Allowed where the element type allows it for every component.
    open spec fn div_req(self, rhs: N) -> bool {
        self.x.div_req(rhs) && self.y.div_req(rhs)
    }

    open spec fn div_spec(self, rhs: N) -> Vector2<N> {
        Vector2 { x: self.x.div_spec(rhs), y: self.y.div_spec(rhs) }
    }
}

impl<N> Rem<Vector2<N>> for Vector2<N> where
    N: Rem<Output = N> + Copy,
{
    type Output = Vector2<N>;

    /// The remainder of two vectors, component by component: whatever the
    /// element type, each component of the result is a result of its `%`
    /// on the operands' components.
    fn rem(self, rhs: Vector2<N>) -> (r: Vector2<N>)
        ensures
            N::obeys_rem_spec() ==> r@ =~= Seq::new(2, |i: int| self@[i].rem_spec(rhs@[i])),
            call_ensures(N::rem, (self.x, rhs.x), r.x),
            call_ensures(N::rem, (self.y, rhs.y), r.y),
    {
        Vector2 { x: self.x % rhs.x, y: self.y % rhs.y }
    }
}

impl<N> vstd::std_specs::ops::RemSpecImpl<Vector2<N>> for Vector2<N> where
    N: Rem<Output = N> + Copy,
{
    open spec fn obeys_rem_spec() -> bool {
        N::obeys_rem_spec()
    }

    /// Allowed where the element type allows it at every index.
    open spec fn rem_req(self, rhs: Vector2<N>) -> bool {
        self.x.rem_req(rhs.x) && self.y.rem_req(rhs.y)
    }

    open spec fn rem_spec(self, rhs: Vector2<N>) -> Vector2<N> {
        Vector2 { x: self.x.rem_spec(rhs.x), y: self.y.rem_spec(rhs.y) }
    }
}

impl<N> Rem<N> for Vector2<N> where N: Rem<Output = N> + Copy {
    type Output = Vector2<N>;

    /// The remainder of each component and the scalar `rhs`: whatever the
    /// element type, each component of the result is a result of its `%`
    /// on the component and the scalar.
    fn rem(self, rhs: N) -> (r: Vector2<N>)
        ensures
            N::obeys_rem_spec() ==> r@ =~= Seq::new(2, |i: int| self@[i].rem_spec(rhs)),
            call_ensures(N::rem, (self.x, rhs), r.x),
            call_ensures(N::rem, (self.y, rhs), r.y),
    {
        Vector2 { x: self.x % rhs, y: self.y % rhs }
    }
}

impl<N> vstd::std_specs::ops::RemSpecImpl<N> for Vector2<N> where N: Rem<Output = N> + Copy {
    open spec fn obeys_rem_spec() -> bool {
        N::obeys_rem_spec()
    }

    /// Allowed where the element type allows it for every component.
    open spec fn rem_req(self, rhs: N) -> bool {
        self.x.rem_req(rhs) && self.y.rem_req(rhs)
    }

    open spec fn rem_spec(self, rhs: N) -> Vector2<N> {
        Vector2 { x: self.x.rem_spec(rhs), y: self.y.rem_spec(rhs) }
    }
}

impl<N> Mul<N> for Vector2<N> where N: Mul<Output = N> + Copy {
    type Output = Vector2<N>;

    /// The vector scaled by `rhs`: whatever the element type, each
    /// component of the result is a result of its `*` on the component and
    /// the scalar.
    fn mul(self, rhs: N) -> (r: Vector2<N>)
        ensures
            N::obeys_mul_spec() ==> r@ =~= Seq::new(2, |i: int| self@[i].mul_spec(rhs)),
            call_ensures(N::mul, (self.x, rhs), r.x),
            call_ensures(N::mul, (self.y, rhs), r.y),
    {
        Vector2 { x: self.x * rhs, y: self.y * rhs }
    }
}

impl<N> vstd::std_specs::ops::MulSpecImpl<N> for Vector2<N> where N: Mul<Output = N> + Copy {
    open spec fn obeys_mul_spec() -> bool {
        N::obeys_mul_spec()
    }

    /// Allowed where the element type allows it for every component.
    open spec fn mul_req(self, rhs: N) -> bool {
        self.x.mul_req(rhs) && self.y.mul_req(rhs)
    }

    open spec fn mul_spec(self, rhs: N) -> Vector2<N> {
        Vector2 { x: self.x.mul_spec(rhs), y: self.y.mul_spec(rhs) }
    }
}

impl<N> Mul<Vector2<N>> for Vector2<N> where
    N: Mul<Output = N> + Add<Output = N> + Copy,
{
    type Output = N;

    /// The dot product: the products of the components at each index, summed
    /// from the first to the last.
    fn mul(self, rhs: Vector2<N>) -> (r: N)
        ensures
            r == self.x.mul_spec(rhs.x).add_spec(self.y.mul_spec(rhs.y)),
    {
        self.x * rhs.x + self.y * rhs.y
    }
}

impl<N> vstd::std_specs::ops::MulSpecImpl<Vector2<N>> for Vector2<N> where
    N: Mul<Output = N> + Add<Output = N> + Copy,
{
    open spec fn obeys_mul_spec() -> bool {
        N::obeys_mul_spec() && N::obeys_add_spec()
    }

    /// Allowed where the element type allows every product and every
    /// partial sum, and its `*` and `+` are the ones that `mul_spec` and
    /// `add_spec` describe.
    open spec fn mul_req(self, rhs: Vector2<N>) -> bool {
        &&& N::obeys_mul_spec()
        &&& N::obeys_add_spec()
        &&& self.x.mul_req(rhs.x)
        &&& self.y.mul_req(rhs.y)
        &&& self.x.mul_spec(rhs.x).add_req(self.y.mul_spec(rhs.y))
    }

    open spec fn mul_spec(self, rhs: Vector2<N>) -> N {
        self.x.mul_spec(rhs.x).add_spec(self.y.mul_spec(rhs.y))
    }
}

impl<N> Index<usize> for Vector2<N> where N: Copy {
    type Output = N;

    /// The component at position `i`, counted from zero.
    fn index(&self, i: usize) -> (r: &N)
        ensures
            *r == self@[i as int],
    {
        match i {
            0 => &self.x,
            1 => &self.y,
            _ => unreached(),
        }
    }
}

impl<N> vstd::std_specs::core::IndexSpecImpl<usize> for Vector2<N> where N: Copy {
    /// Only the positions below 2 can be asked for.
    open spec fn index_req(&self, i: &usize) -> bool {
        *i < 2
    }
}

impl<N> IndexMut<usize> for Vector2<N> where N: Copy {
    /// The component at position `i`, to be written through: when the borrow
    /// ends, the vector holds what was left there and is otherwise unchanged.
    fn index_mut(&mut self, i: usize) -> (r: &mut N)
        requires
            i < 2,
        ensures
            *r == old(self)@[i as int],
            final(self)@ == old(self)@.update(i as int, *final(r)),
    {
        match i {
            0 => &mut self.x,
            1 => &mut self.y,
            _ => unreached(),
        }
    }
}

impl<N> From<[N; 2]> for Vector2<N> where N: Copy {
    /// The vector whose components are the elements of `a`, in order.
    fn from(a: [N; 2]) -> (r: Vector2<N>)
        ensures
            r@ == a@,
    {
        Vector2 { x: a[0], y: a[1] }
    }
}

impl<N> vstd::std_specs::convert::FromSpecImpl<[N; 2]> for Vector2<N> where N: Copy {
    open spec fn obeys_from_spec() -> bool {
        true
    }

    open spec fn from_spec(a: [N; 2]) -> Vector2<N> {
        Vector2 { x: a[0], y: a[1] }
    }
}

impl<N> From<Vector2<N>> for [N; 2] where N: Copy {
    /// The array whose elements are the components of `v`, in order.
    fn from(v: Vector2<N>) -> (r: [N; 2])
        ensures
            r@ == v@,
    {
        [v.x, v.y]
    }
}

impl<N> vstd::std_specs::convert::FromSpecImpl<Vector2<N>> for [N; 2] where N: Copy {
    open spec fn obeys_from_spec() -> bool {
        true
    }

    open spec fn from_spec(v: Vector2<N>) -> [N; 2] {
        [v.x, v.y]
    }
}

impl<N> Columnar for Vector2<N> where N: Copy {
    type Column = Vector2<N>;

    /// A vector has one column.
    open spec fn ncols_spec(&self) -> nat {
        1
    }

    /// The one column is the vector itself.
    open spec fn column_spec(&self, i: int) -> Vector2<N> {
        *self
    }

    fn ncols(&self) -> (n: usize)
        ensures
            n == 1,
    {
        1
    }

    /// Column 0 is the vector itself; there is no other.
    fn column(&self, i: usize) -> (r: Option<Vector2<N>>)
        ensures
            r == if i == 0 {
                Some(*self)
            } else {
                None
            },
    {
        if i == 0 {
            Some(*self)
        } else {
            None
        }
    }
}

impl<N> Tabular for Vector2<N> where N: Copy {
    type Row = N;

    /// A vector has one row for each component.
    open spec fn nrows_spec(&self) -> nat {
        2
    }

    /// Row `i` is the component at position `i`.
    open spec fn row_spec(&self, i: int) -> N {
        self@[i]
    }

    fn nrows(&self) -> (n: usize)
        ensures
            n == 2,
    {
        2
    }

    /// Row `i` is the component at position `i`; from 2 on there is none.
    fn row(&self, i: usize) -> (r: Option<N>)
        ensures
            r == if i < 2 {
                Some(self@[i as int])
            } else {
                None
            },
    {
        if i >= self.nrows() {
            None
        } else {
            Some(self[i])
        }
    }
}

impl<N> Vector2<N> where N: Copy {
    /// Index a column mutably: column 0 borrows the whole vector, and there
    /// is no other.
    pub fn column_mut(&mut self, i: usize) -> (r: Option<&mut Vector2<N>>)
        ensures
            r is Some <==> i == 0,
            r is Some ==> *r.unwrap() == *old(self) && *final(self) == *final(r.unwrap()),
            r is None ==> *final(self) == *old(self),
    {
        if i == 0 {
            Some(self)
        } else {
            None
        }
    }

    /// Index a row mutably: row `i` borrows the component at position `i`,
    /// and from 2 on there is none. When the borrow ends, the vector holds
    /// what was left there and is otherwise unchanged.
    pub fn row_mut(&mut self, i: usize) -> (r: Option<&mut N>)
        ensures
            r is Some <==> i < 2,
            r is Some ==> *r.unwrap() == old(self)@[i as int] && final(self)@ == old(self)@.update(
                i as int,
                *final(r.unwrap()),
            ),
            r is None ==> *final(self) == *old(self),
    {
        if i >= 2 {
            None
        } else {
            Some(self.index_mut(i))
        }
    }
}

impl<N> Vector<N> for Vector2<N> where N: Numeric + Copy {
}

impl<N> Vector2<N> where N: Numeric + Copy {
    /// `+`, `-`, `/` and `%` between two vectors work component by
    /// component: the result's component at `i` is that operator applied to
    /// the operands' components at `i`, and the operation is allowed where
    /// it is allowed at every index.
    pub proof fn elementwise(v1: Vector2<N>, v2: Vector2<N>, i: int)
        requires
            0 <= i < 2,
        ensures
            v1.add_spec(v2)@[i] == v1@[i].add_spec(v2@[i]),
            v1.add_req(v2) ==> v1@[i].add_req(v2@[i]),
            v1.sub_spec(v2)@[i] == v1@[i].sub_spec(v2@[i]),
            v1.sub_req(v2) ==> v1@[i].sub_req(v2@[i]),
            v1.div_spec(v2)@[i] == v1@[i].div_spec(v2@[i]),
            v1.div_req(v2) ==> v1@[i].div_req(v2@[i]),
            v1.rem_spec(v2)@[i] == v1@[i].rem_spec(v2@[i]),
            v1.rem_req(v2) ==> v1@[i].rem_req(v2@[i]),
    {
    }

    /// `+`, `-`, `*`, `/` and `%` between a vector and a scalar combine
    /// every component with that same scalar.
    pub proof fn scalar_broadcast(v: Vector2<N>, s: N, i: int)
        requires
            0 <= i < 2,
        ensures
            v.add_spec(s)@[i] == v@[i].add_spec(s),
            v.add_req(s) ==> v@[i].add_req(s),
            v.sub_spec(s)@[i] == v@[i].sub_spec(s),
            v.sub_req(s) ==> v@[i].sub_req(s),
            v.mul_spec(s)@[i] == v@[i].mul_spec(s),
            v.mul_req(s) ==> v@[i].mul_req(s),
            v.div_spec(s)@[i] == v@[i].div_spec(s),
            v.div_req(s) ==> v@[i].div_req(s),
            v.rem_spec(s)@[i] == v@[i].rem_spec(s),
            v.rem_req(s) ==> v@[i].rem_req(s),
    {
    }

    /// The product of two vectors is the sum over their components of the
    /// products at each index.
    pub proof fn dot_product(v1: Vector2<N>, v2: Vector2<N>)
        ensures
            v1.mul_spec(v2) == dot(v1@, v2@),
    {
        reveal_with_fuel(dot, 3);
    }
}

impl<N> Vector2<N> where N: Copy {
    /// Going to the array and back gives the vector again, and going to the
    /// vector and back gives the array again.
    pub proof fn array_round_trip(v: Vector2<N>, a: [N; 2])
        ensures
            Vector2::from_spec(<[N; 2]>::from_spec(v)) == v,
            <[N; 2]>::from_spec(Vector2::from_spec(a)) == a,
    {
        assert(<[N; 2]>::from_spec(Vector2::from_spec(a)) =~= a);
    }
}

} // verus!
