use crate::matrix::is_equal;
use crate::matrix::Matrix;
use crate::numeric::Numeric;
use crate::table::Columnar;
use crate::table::Tabular;
use crate::vector::Vector4;
use std::cmp::Ordering;
use std::ops::Add;
use std::ops::Div;
use std::ops::Index;
use std::ops::IndexMut;
use std::ops::Mul;
use std::ops::Rem;
use std::ops::Sub;
use vstd::prelude::*;
use vstd::std_specs::cmp::PartialEqSpec;
use vstd::std_specs::cmp::PartialOrdSpec;
use vstd::std_specs::convert::FromSpec;
use vstd::std_specs::ops::AddSpec;
use vstd::std_specs::ops::DivSpec;
use vstd::std_specs::ops::MulSpec;
use vstd::std_specs::ops::RemSpec;
use vstd::std_specs::ops::SubSpec;

verus! {

/// A 4x4 matrix of any numeric type.
///
/// The component `xCyR` stands in column `C` and row `R`, both counted from
/// one. The components are laid out row after row, so that the one in
/// column `c` and row `r`, counted from zero, is the component `c + r * 4`
/// of the flattened matrix.
#[derive(Clone, Copy, Eq, Debug, Hash)]
pub struct Matrix4<N> {
    pub x1y1: N,
    pub x2y1: N,
    pub x3y1: N,
    pub x4y1: N,
    pub x1y2: N,
    pub x2y2: N,
    pub x3y2: N,
    pub x4y2: N,
    pub x1y3: N,
    pub x2y3: N,
    pub x3y3: N,
    pub x4y3: N,
    pub x1y4: N,
    pub x2y4: N,
    pub x3y4: N,
    pub x4y4: N,
}

impl<N> View for Matrix4<N> {
    type V = Seq<N>;

    /// The flattened matrix: all components, row after row.
    open spec fn view(&self) -> Seq<N> {
        seq![
            self.x1y1, self.x2y1, self.x3y1, self.x4y1,
            self.x1y2, self.x2y2, self.x3y2, self.x4y2,
            self.x1y3, self.x2y3, self.x3y3, self.x4y3,
            self.x1y4, self.x2y4, self.x3y4, self.x4y4,
        ]
    }
}

impl<N: Default> Default for Matrix4<N> {
    /// Every component is a default value of the element type.
    fn default() -> (r: Matrix4<N>)
        ensures
            call_ensures(N::default, (), r.x1y1),
            call_ensures(N::default, (), r.x2y1),
            call_ensures(N::default, (), r.x3y1),
            call_ensures(N::default, (), r.x4y1),
            call_ensures(N::default, (), r.x1y2),
            call_ensures(N::default, (), r.x2y2),
            call_ensures(N::default, (), r.x3y2),
            call_ensures(N::default, (), r.x4y2),
            call_ensures(N::default, (), r.x1y3),
            call_ensures(N::default, (), r.x2y3),
            call_ensures(N::default, (), r.x3y3),
            call_ensures(N::default, (), r.x4y3),
            call_ensures(N::default, (), r.x1y4),
            call_ensures(N::default, (), r.x2y4),
            call_ensures(N::default, (), r.x3y4),
            call_ensures(N::default, (), r.x4y4),
    {
        Matrix4 {
            x1y1: N::default(),
            x2y1: N::default(),
            x3y1: N::default(),
            x4y1: N::default(),
            x1y2: N::default(),
            x2y2: N::default(),
            x3y2: N::default(),
            x4y2: N::default(),
            x1y3: N::default(),
            x2y3: N::default(),
            x3y3: N::default(),
            x4y3: N::default(),
            x1y4: N::default(),
            x2y4: N::default(),
            x3y4: N::default(),
            x4y4: N::default(),
        }
    }
}

impl<N: PartialEq> PartialEq for Matrix4<N> {
    fn eq(&self, other: &Matrix4<N>) -> (r: bool) {
        self.x1y1 == other.x1y1
            && self.x2y1 == other.x2y1
            && self.x3y1 == other.x3y1
            && self.x4y1 == other.x4y1
            && self.x1y2 == other.x1y2
            && self.x2y2 == other.x2y2
            && self.x3y2 == other.x3y2
            && self.x4y2 == other.x4y2
            && self.x1y3 == other.x1y3
            && self.x2y3 == other.x2y3
            && self.x3y3 == other.x3y3
            && self.x4y3 == other.x4y3
            && self.x1y4 == other.x1y4
            && self.x2y4 == other.x2y4
            && self.x3y4 == other.x3y4
            && self.x4y4 == other.x4y4
    }
}

impl<N: PartialEq> vstd::std_specs::cmp::PartialEqSpecImpl for Matrix4<N> {
    open spec fn obeys_eq_spec() -> bool {
        N::obeys_eq_spec()
    }

    /// Two matrices are equal where all their components are.
    open spec fn eq_spec(&self, other: &Matrix4<N>) -> bool {
        &&& self.x1y1.eq_spec(&other.x1y1)
        &&& self.x2y1.eq_spec(&other.x2y1)
        &&& self.x3y1.eq_spec(&other.x3y1)
        &&& self.x4y1.eq_spec(&other.x4y1)
        &&& self.x1y2.eq_spec(&other.x1y2)
        &&& self.x2y2.eq_spec(&other.x2y2)
        &&& self.x3y2.eq_spec(&other.x3y2)
        &&& self.x4y2.eq_spec(&other.x4y2)
        &&& self.x1y3.eq_spec(&other.x1y3)
        &&& self.x2y3.eq_spec(&other.x2y3)
        &&& self.x3y3.eq_spec(&other.x3y3)
        &&& self.x4y3.eq_spec(&other.x4y3)
        &&& self.x1y4.eq_spec(&other.x1y4)
        &&& self.x2y4.eq_spec(&other.x2y4)
        &&& self.x3y4.eq_spec(&other.x3y4)
        &&& self.x4y4.eq_spec(&other.x4y4)
    }
}

impl<N: PartialOrd> PartialOrd for Matrix4<N> {
    fn partial_cmp(&self, other: &Matrix4<N>) -> (r: Option<Ordering>) {
        let by_x1y1 = self.x1y1.partial_cmp(&other.x1y1);
        if !is_equal(by_x1y1) {
            return by_x1y1;
        }
        let by_x2y1 = self.x2y1.partial_cmp(&other.x2y1);
        if !is_equal(by_x2y1) {
            return by_x2y1;
        }
        let by_x3y1 = self.x3y1.partial_cmp(&other.x3y1);
        if !is_equal(by_x3y1) {
            return by_x3y1;
        }
        let by_x4y1 = self.x4y1.partial_cmp(&other.x4y1);
        if !is_equal(by_x4y1) {
            return by_x4y1;
        }
        let by_x1y2 = self.x1y2.partial_cmp(&other.x1y2);
        if !is_equal(by_x1y2) {
            return by_x1y2;
        }
        let by_x2y2 = self.x2y2.partial_cmp(&other.x2y2);
        if !is_equal(by_x2y2) {
            return by_x2y2;
        }
        let by_x3y2 = self.x3y2.partial_cmp(&other.x3y2);
        if !is_equal(by_x3y2) {
            return by_x3y2;
        }
        let by_x4y2 = self.x4y2.partial_cmp(&other.x4y2);
        if !is_equal(by_x4y2) {
            return by_x4y2;
        }
        let by_x1y3 = self.x1y3.partial_cmp(&other.x1y3);
        if !is_equal(by_x1y3) {
            return by_x1y3;
        }
        let by_x2y3 = self.x2y3.partial_cmp(&other.x2y3);
        if !is_equal(by_x2y3) {
            return by_x2y3;
        }
        let by_x3y3 = self.x3y3.partial_cmp(&other.x3y3);
        if !is_equal(by_x3y3) {
            return by_x3y3;
        }
        let by_x4y3 = self.x4y3.partial_cmp(&other.x4y3);
        if !is_equal(by_x4y3) {
            return by_x4y3;
        }
        let by_x1y4 = self.x1y4.partial_cmp(&other.x1y4);
        if !is_equal(by_x1y4) {
            return by_x1y4;
        }
        let by_x2y4 = self.x2y4.partial_cmp(&other.x2y4);
        if !is_equal(by_x2y4) {
            return by_x2y4;
        }
        let by_x3y4 = self.x3y4.partial_cmp(&other.x3y4);
        if !is_equal(by_x3y4) {
            return by_x3y4;
        }
        self.x4y4.partial_cmp(&other.x4y4)
    }
}

impl<N: PartialOrd> vstd::std_specs::cmp::PartialOrdSpecImpl for Matrix4<N> {
    open spec fn obeys_partial_cmp_spec() -> bool {
        N::obeys_partial_cmp_spec()
    }

    /// Matrices are ordered by the first component, in the flattened
    /// order, in which they differ.
    open spec fn partial_cmp_spec(&self, other: &Matrix4<N>) -> Option<Ordering> {
        if self.x1y1.partial_cmp_spec(&other.x1y1) != Some(Ordering::Equal) {
            self.x1y1.partial_cmp_spec(&other.x1y1)
        } else if self.x2y1.partial_cmp_spec(&other.x2y1) != Some(Ordering::Equal) {
            self.x2y1.partial_cmp_spec(&other.x2y1)
        } else if self.x3y1.partial_cmp_spec(&other.x3y1) != Some(Ordering::Equal) {
            self.x3y1.partial_cmp_spec(&other.x3y1)
        } else if self.x4y1.partial_cmp_spec(&other.x4y1) != Some(Ordering::Equal) {
            self.x4y1.partial_cmp_spec(&other.x4y1)
        } else if self.x1y2.partial_cmp_spec(&other.x1y2) != Some(Ordering::Equal) {
            self.x1y2.partial_cmp_spec(&other.x1y2)
        } else if self.x2y2.partial_cmp_spec(&other.x2y2) != Some(Ordering::Equal) {
            self.x2y2.partial_cmp_spec(&other.x2y2)
        } else if self.x3y2.partial_cmp_spec(&other.x3y2) != Some(Ordering::Equal) {
            self.x3y2.partial_cmp_spec(&other.x3y2)
        } else if self.x4y2.partial_cmp_spec(&other.x4y2) != Some(Ordering::Equal) {
            self.x4y2.partial_cmp_spec(&other.x4y2)
        } else if self.x1y3.partial_cmp_spec(&other.x1y3) != Some(Ordering::Equal) {
            self.x1y3.partial_cmp_spec(&other.x1y3)
        } else if self.x2y3.partial_cmp_spec(&other.x2y3) != Some(Ordering::Equal) {
            self.x2y3.partial_cmp_spec(&other.x2y3)
        } else if self.x3y3.partial_cmp_spec(&other.x3y3) != Some(Ordering::Equal) {
            self.x3y3.partial_cmp_spec(&other.x3y3)
        } else if self.x4y3.partial_cmp_spec(&other.x4y3) != Some(Ordering::Equal) {
            self.x4y3.partial_cmp_spec(&other.x4y3)
        } else if self.x1y4.partial_cmp_spec(&other.x1y4) != Some(Ordering::Equal) {
            self.x1y4.partial_cmp_spec(&other.x1y4)
        } else if self.x2y4.partial_cmp_spec(&other.x2y4) != Some(Ordering::Equal) {
            self.x2y4.partial_cmp_spec(&other.x2y4)
        } else if self.x3y4.partial_cmp_spec(&other.x3y4) != Some(Ordering::Equal) {
            self.x3y4.partial_cmp_spec(&other.x3y4)
        } else {
            self.x4y4.partial_cmp_spec(&other.x4y4)
        }
    }
}

impl<N> Matrix<N> for Matrix4<N> {
    open spec fn nrows_spec(&self) -> nat {
        4
    }

    open spec fn ncols_spec(&self) -> nat {
        4
    }

    fn nrows(&self) -> (n: usize)
        ensures
            n == 4,
    {
        4
    }

    fn ncols(&self) -> (n: usize)
        ensures
            n == 4,
    {
        4
    }
}

impl<N> Add<Matrix4<N>> for Matrix4<N> where
    N: Add<Output = N> + Copy,
{
    type Output = Matrix4<N>;

    /// The sum of two matrices, component by component: whatever the
    /// element type, each component of the result is a result of its `+`
    /// on the operands' components.
    fn add(self, rhs: Matrix4<N>) -> (r: Matrix4<N>)
        ensures
            N::obeys_add_spec() ==> r@ =~= Seq::new(16, |i: int| self@[i].add_spec(rhs@[i])),
            call_ensures(N::add, (self.x1y1, rhs.x1y1), r.x1y1),
            call_ensures(N::add, (self.x2y1, rhs.x2y1), r.x2y1),
            call_ensures(N::add, (self.x3y1, rhs.x3y1), r.x3y1),
            call_ensures(N::add, (self.x4y1, rhs.x4y1), r.x4y1),
            call_ensures(N::add, (self.x1y2, rhs.x1y2), r.x1y2),
            call_ensures(N::add, (self.x2y2, rhs.x2y2), r.x2y2),
            call_ensures(N::add, (self.x3y2, rhs.x3y2), r.x3y2),
            call_ensures(N::add, (self.x4y2, rhs.x4y2), r.x4y2),
            call_ensures(N::add, (self.x1y3, rhs.x1y3), r.x1y3),
            call_ensures(N::add, (self.x2y3, rhs.x2y3), r.x2y3),
            call_ensures(N::add, (self.x3y3, rhs.x3y3), r.x3y3),
            call_ensures(N::add, (self.x4y3, rhs.x4y3), r.x4y3),
            call_ensures(N::add, (self.x1y4, rhs.x1y4), r.x1y4),
            call_ensures(N::add, (self.x2y4, rhs.x2y4), r.x2y4),
            call_ensures(N::add, (self.x3y4, rhs.x3y4), r.x3y4),
            call_ensures(N::add, (self.x4y4, rhs.x4y4), r.x4y4),
    {
        Matrix4 {
            x1y1: self.x1y1 + rhs.x1y1,
            x2y1: self.x2y1 + rhs.x2y1,
            x3y1: self.x3y1 + rhs.x3y1,
            x4y1: self.x4y1 + rhs.x4y1,
            x1y2: self.x1y2 + rhs.x1y2,
            x2y2: self.x2y2 + rhs.x2y2,
            x3y2: self.x3y2 + rhs.x3y2,
            x4y2: self.x4y2 + rhs.x4y2,
            x1y3: self.x1y3 + rhs.x1y3,
            x2y3: self.x2y3 + rhs.x2y3,
            x3y3: self.x3y3 + rhs.x3y3,
            x4y3: self.x4y3 + rhs.x4y3,
            x1y4: self.x1y4 + rhs.x1y4,
            x2y4: self.x2y4 + rhs.x2y4,
            x3y4: self.x3y4 + rhs.x3y4,
            x4y4: self.x4y4 + rhs.x4y4,
        }
    }
}

impl<N> vstd::std_specs::ops::AddSpecImpl<Matrix4<N>> for Matrix4<N> where
    N: Add<Output = N> + Copy,
{
    open spec fn obeys_add_spec() -> bool {
        N::obeys_add_spec()
    }

    /// Allowed where the element type allows it at every index.
    open spec fn add_req(self, rhs: Matrix4<N>) -> bool {
        &&& self.x1y1.add_req(rhs.x1y1)
        &&& self.x2y1.add_req(rhs.x2y1)
        &&& self.x3y1.add_req(rhs.x3y1)
        &&& self.x4y1.add_req(rhs.x4y1)
        &&& self.x1y2.add_req(rhs.x1y2)
        &&& self.x2y2.add_req(rhs.x2y2)
        &&& self.x3y2.add_req(rhs.x3y2)
        &&& self.x4y2.add_req(rhs.x4y2)
        &&& self.x1y3.add_req(rhs.x1y3)
        &&& self.x2y3.add_req(rhs.x2y3)
        &&& self.x3y3.add_req(rhs.x3y3)
        &&& self.x4y3.add_req(rhs.x4y3)
        &&& self.x1y4.add_req(rhs.x1y4)
        &&& self.x2y4.add_req(rhs.x2y4)
        &&& self.x3y4.add_req(rhs.x3y4)
        &&& self.x4y4.add_req(rhs.x4y4)
    }

    open spec fn add_spec(self, rhs: Matrix4<N>) -> Matrix4<N> {
        Matrix4 {
            x1y1: self.x1y1.add_spec(rhs.x1y1),
            x2y1: self.x2y1.add_spec(rhs.x2y1),
            x3y1: self.x3y1.add_spec(rhs.x3y1),
            x4y1: self.x4y1.add_spec(rhs.x4y1),
            x1y2: self.x1y2.add_spec(rhs.x1y2),
            x2y2: self.x2y2.add_spec(rhs.x2y2),
            x3y2: self.x3y2.add_spec(rhs.x3y2),
            x4y2: self.x4y2.add_spec(rhs.x4y2),
            x1y3: self.x1y3.add_spec(rhs.x1y3),
            x2y3: self.x2y3.add_spec(rhs.x2y3),
            x3y3: self.x3y3.add_spec(rhs.x3y3),
            x4y3: self.x4y3.add_spec(rhs.x4y3),
            x1y4: self.x1y4.add_spec(rhs.x1y4),
            x2y4: self.x2y4.add_spec(rhs.x2y4),
            x3y4: self.x3y4.add_spec(rhs.x3y4),
            x4y4: self.x4y4.add_spec(rhs.x4y4),
        }
    }
}

impl<N> Add<N> for Matrix4<N> where N: Add<Output = N> + Copy {
    type Output = Matrix4<N>;

    /// The sum of each component and the scalar `rhs`: whatever the
    /// element type, each component of the result is a result of its `+`
    /// on the component and the scalar.
    fn add(self, rhs: N) -> (r: Matrix4<N>)
        ensures
            N::obeys_add_spec() ==> r@ =~= Seq::new(16, |i: int| self@[i].add_spec(rhs)),
            call_ensures(N::add, (self.x1y1, rhs), r.x1y1),
            call_ensures(N::add, (self.x2y1, rhs), r.x2y1),
            call_ensures(N::add, (self.x3y1, rhs), r.x3y1),
            call_ensures(N::add, (self.x4y1, rhs), r.x4y1),
            call_ensures(N::add, (self.x1y2, rhs), r.x1y2),
            call_ensures(N::add, (self.x2y2, rhs), r.x2y2),
            call_ensures(N::add, (self.x3y2, rhs), r.x3y2),
            call_ensures(N::add, (self.x4y2, rhs), r.x4y2),
            call_ensures(N::add, (self.x1y3, rhs), r.x1y3),
            call_ensures(N::add, (self.x2y3, rhs), r.x2y3),
            call_ensures(N::add, (self.x3y3, rhs), r.x3y3),
            call_ensures(N::add, (self.x4y3, rhs), r.x4y3),
            call_ensures(N::add, (self.x1y4, rhs), r.x1y4),
            call_ensures(N::add, (self.x2y4, rhs), r.x2y4),
            call_ensures(N::add, (self.x3y4, rhs), r.x3y4),
            call_ensures(N::add, (self.x4y4, rhs), r.x4y4),
    {
        Matrix4 {
            x1y1: self.x1y1 + rhs,
            x2y1: self.x2y1 + rhs,
            x3y1: self.x3y1 + rhs,
            x4y1: self.x4y1 + rhs,
            x1y2: self.x1y2 + rhs,
            x2y2: self.x2y2 + rhs,
            x3y2: self.x3y2 + rhs,
            x4y2: self.x4y2 + rhs,
            x1y3: self.x1y3 + rhs,
            x2y3: self.x2y3 + rhs,
            x3y3: self.x3y3 + rhs,
            x4y3: self.x4y3 + rhs,
            x1y4: self.x1y4 + rhs,
            x2y4: self.x2y4 + rhs,
            x3y4: self.x3y4 + rhs,
            x4y4: self.x4y4 + rhs,
        }
    }
}

impl<N> vstd::std_specs::ops::AddSpecImpl<N> for Matrix4<N> where N: Add<Output = N> + Copy {
    open spec fn obeys_add_spec() -> bool {
        N::obeys_add_spec()
    }

    /// Allowed where the element type allows it for every component.
    open spec fn add_req(self, rhs: N) -> bool {
        &&& self.x1y1.add_req(rhs)
        &&& self.x2y1.add_req(rhs)
        &&& self.x3y1.add_req(rhs)
        &&& self.x4y1.add_req(rhs)
        &&& self.x1y2.add_req(rhs)
        &&& self.x2y2.add_req(rhs)
        &&& self.x3y2.add_req(rhs)
        &&& self.x4y2.add_req(rhs)
        &&& self.x1y3.add_req(rhs)
        &&& self.x2y3.add_req(rhs)
        &&& self.x3y3.add_req(rhs)
        &&& self.x4y3.add_req(rhs)
        &&& self.x1y4.add_req(rhs)
        &&& self.x2y4.add_req(rhs)
        &&& self.x3y4.add_req(rhs)
        &&& self.x4y4.add_req(rhs)
    }

    open spec fn add_spec(self, rhs: N) -> Matrix4<N> {
        Matrix4 {
            x1y1: self.x1y1.add_spec(rhs),
            x2y1: self.x2y1.add_spec(rhs),
            x3y1: self.x3y1.add_spec(rhs),
            x4y1: self.x4y1.add_spec(rhs),
            x1y2: self.x1y2.add_spec(rhs),
            x2y2: self.x2y2.add_spec(rhs),
            x3y2: self.x3y2.add_spec(rhs),
            x4y2: self.x4y2.add_spec(rhs),
            x1y3: self.x1y3.add_spec(rhs),
            x2y3: self.x2y3.add_spec(rhs),
            x3y3: self.x3y3.add_spec(rhs),
            x4y3: self.x4y3.add_spec(rhs),
            x1y4: self.x1y4.add_spec(rhs),
            x2y4: self.x2y4.add_spec(rhs),
            x3y4: self.x3y4.add_spec(rhs),
            x4y4: self.x4y4.add_spec(rhs),
        }
    }
}

impl<N> Sub<Matrix4<N>> for Matrix4<N> where
    N: Sub<Output = N> + Copy,
{
    type Output = Matrix4<N>;

    /// The difference of two matrices, component by component: whatever the
    /// element type, each component of the result is a result of its `-`
    /// on the operands' components.
    fn sub(self, rhs: Matrix4<N>) -> (r: Matrix4<N>)
        ensures
            N::obeys_sub_spec() ==> r@ =~= Seq::new(16, |i: int| self@[i].sub_spec(rhs@[i])),
            call_ensures(N::sub, (self.x1y1, rhs.x1y1), r.x1y1),
            call_ensures(N::sub, (self.x2y1, rhs.x2y1), r.x2y1),
            call_ensures(N::sub, (self.x3y1, rhs.x3y1), r.x3y1),
            call_ensures(N::sub, (self.x4y1, rhs.x4y1), r.x4y1),
            call_ensures(N::sub, (self.x1y2, rhs.x1y2), r.x1y2),
            call_ensures(N::sub, (self.x2y2, rhs.x2y2), r.x2y2),
            call_ensures(N::sub, (self.x3y2, rhs.x3y2), r.x3y2),
            call_ensures(N::sub, (self.x4y2, rhs.x4y2), r.x4y2),
            call_ensures(N::sub, (self.x1y3, rhs.x1y3), r.x1y3),
            call_ensures(N::sub, (self.x2y3, rhs.x2y3), r.x2y3),
            call_ensures(N::sub, (self.x3y3, rhs.x3y3), r.x3y3),
            call_ensures(N::sub, (self.x4y3, rhs.x4y3), r.x4y3),
            call_ensures(N::sub, (self.x1y4, rhs.x1y4), r.x1y4),
            call_ensures(N::sub, (self.x2y4, rhs.x2y4), r.x2y4),
            call_ensures(N::sub, (self.x3y4, rhs.x3y4), r.x3y4),
            call_ensures(N::sub, (self.x4y4, rhs.x4y4), r.x4y4),
    {
        Matrix4 {
            x1y1: self.x1y1 - rhs.x1y1,
            x2y1: self.x2y1 - rhs.x2y1,
            x3y1: self.x3y1 - rhs.x3y1,
            x4y1: self.x4y1 - rhs.x4y1,
            x1y2: self.x1y2 - rhs.x1y2,
            x2y2: self.x2y2 - rhs.x2y2,
            x3y2: self.x3y2 - rhs.x3y2,
            x4y2: self.x4y2 - rhs.x4y2,
            x1y3: self.x1y3 - rhs.x1y3,
            x2y3: self.x2y3 - rhs.x2y3,
            x3y3: self.x3y3 - rhs.x3y3,
            x4y3: self.x4y3 - rhs.x4y3,
            x1y4: self.x1y4 - rhs.x1y4,
            x2y4: self.x2y4 - rhs.x2y4,
            x3y4: self.x3y4 - rhs.x3y4,
            x4y4: self.x4y4 - rhs.x4y4,
        }
    }
}

impl<N> vstd::std_specs::ops::SubSpecImpl<Matrix4<N>> for Matrix4<N> where
    N: Sub<Output = N> + Copy,
{
    open spec fn obeys_sub_spec() -> bool {
        N::obeys_sub_spec()
    }

    /// Allowed where the element type allows it at every index.
    open spec fn sub_req(self, rhs: Matrix4<N>) -> bool {
        &&& self.x1y1.sub_req(rhs.x1y1)
        &&& self.x2y1.sub_req(rhs.x2y1)
        &&& self.x3y1.sub_req(rhs.x3y1)
        &&& self.x4y1.sub_req(rhs.x4y1)
        &&& self.x1y2.sub_req(rhs.x1y2)
        &&& self.x2y2.sub_req(rhs.x2y2)
        &&& self.x3y2.sub_req(rhs.x3y2)
        &&& self.x4y2.sub_req(rhs.x4y2)
        &&& self.x1y3.sub_req(rhs.x1y3)
        &&& self.x2y3.sub_req(rhs.x2y3)
        &&& self.x3y3.sub_req(rhs.x3y3)
        &&& self.x4y3.sub_req(rhs.x4y3)
        &&& self.x1y4.sub_req(rhs.x1y4)
        &&& self.x2y4.sub_req(rhs.x2y4)
        &&& self.x3y4.sub_req(rhs.x3y4)
        &&& self.x4y4.sub_req(rhs.x4y4)
    }

    open spec fn sub_spec(self, rhs: Matrix4<N>) -> Matrix4<N> {
        Matrix4 {
            x1y1: self.x1y1.sub_spec(rhs.x1y1),
            x2y1: self.x2y1.sub_spec(rhs.x2y1),
            x3y1: self.x3y1.sub_spec(rhs.x3y1),
            x4y1: self.x4y1.sub_spec(rhs.x4y1),
            x1y2: self.x1y2.sub_spec(rhs.x1y2),
            x2y2: self.x2y2.sub_spec(rhs.x2y2),
            x3y2: self.x3y2.sub_spec(rhs.x3y2),
            x4y2: self.x4y2.sub_spec(rhs.x4y2),
            x1y3: self.x1y3.sub_spec(rhs.x1y3),
            x2y3: self.x2y3.sub_spec(rhs.x2y3),
            x3y3: self.x3y3.sub_spec(rhs.x3y3),
            x4y3: self.x4y3.sub_spec(rhs.x4y3),
            x1y4: self.x1y4.sub_spec(rhs.x1y4),
            x2y4: self.x2y4.sub_spec(rhs.x2y4),
            x3y4: self.x3y4.sub_spec(rhs.x3y4),
            x4y4: self.x4y4.sub_spec(rhs.x4y4),
        }
    }
}

impl<N> Sub<N> for Matrix4<N> where N: Sub<Output = N> + Copy {
    type Output = Matrix4<N>;

    /// The difference of each component and the scalar `rhs`: whatever the
    /// element type, each component of the result is a result of its `-`
    /// on the component and the scalar.
    fn sub(self, rhs: N) -> (r: Matrix4<N>)
        ensures
            N::obeys_sub_spec() ==> r@ =~= Seq::new(16, |i: int| self@[i].sub_spec(rhs)),
            call_ensures(N::sub, (self.x1y1, rhs), r.x1y1),
            call_ensures(N::sub, (self.x2y1, rhs), r.x2y1),
            call_ensures(N::sub, (self.x3y1, rhs), r.x3y1),
            call_ensures(N::sub, (self.x4y1, rhs), r.x4y1),
            call_ensures(N::sub, (self.x1y2, rhs), r.x1y2),
            call_ensures(N::sub, (self.x2y2, rhs), r.x2y2),
            call_ensures(N::sub, (self.x3y2, rhs), r.x3y2),
            call_ensures(N::sub, (self.x4y2, rhs), r.x4y2),
            call_ensures(N::sub, (self.x1y3, rhs), r.x1y3),
            call_ensures(N::sub, (self.x2y3, rhs), r.x2y3),
            call_ensures(N::sub, (self.x3y3, rhs), r.x3y3),
            call_ensures(N::sub, (self.x4y3, rhs), r.x4y3),
            call_ensures(N::sub, (self.x1y4, rhs), r.x1y4),
            call_ensures(N::sub, (self.x2y4, rhs), r.x2y4),
            call_ensures(N::sub, (self.x3y4, rhs), r.x3y4),
            call_ensures(N::sub, (self.x4y4, rhs), r.x4y4),
    {
        Matrix4 {
            x1y1: self.x1y1 - rhs,
            x2y1: self.x2y1 - rhs,
            x3y1: self.x3y1 - rhs,
            x4y1: self.x4y1 - rhs,
            x1y2: self.x1y2 - rhs,
            x2y2: self.x2y2 - rhs,
            x3y2: self.x3y2 - rhs,
            x4y2: self.x4y2 - rhs,
            x1y3: self.x1y3 - rhs,
            x2y3: self.x2y3 - rhs,
            x3y3: self.x3y3 - rhs,
            x4y3: self.x4y3 - rhs,
            x1y4: self.x1y4 - rhs,
            x2y4: self.x2y4 - rhs,
            x3y4: self.x3y4 - rhs,
            x4y4: self.x4y4 - rhs,
        }
    }
}

impl<N> vstd::std_specs::ops::SubSpecImpl<N> for Matrix4<N> where N: Sub<Output = N> + Copy {
    open spec fn obeys_sub_spec() -> bool {
        N::obeys_sub_spec()
    }

    /// Allowed where the element type allows it for every component.
    open spec fn sub_req(self, rhs: N) -> bool {
        &&& self.x1y1.sub_req(rhs)
        &&& self.x2y1.sub_req(rhs)
        &&& self.x3y1.sub_req(rhs)
        &&& self.x4y1.sub_req(rhs)
        &&& self.x1y2.sub_req(rhs)
        &&& self.x2y2.sub_req(rhs)
        &&& self.x3y2.sub_req(rhs)
        &&& self.x4y2.sub_req(rhs)
        &&& self.x1y3.sub_req(rhs)
        &&& self.x2y3.sub_req(rhs)
        &&& self.x3y3.sub_req(rhs)
        &&& self.x4y3.sub_req(rhs)
        &&& self.x1y4.sub_req(rhs)
        &&& self.x2y4.sub_req(rhs)
        &&& self.x3y4.sub_req(rhs)
        &&& self.x4y4.sub_req(rhs)
    }

    open spec fn sub_spec(self, rhs: N) -> Matrix4<N> {
        Matrix4 {
            x1y1: self.x1y1.sub_spec(rhs),
            x2y1: self.x2y1.sub_spec(rhs),
            x3y1: self.x3y1.sub_spec(rhs),
            x4y1: self.x4y1.sub_spec(rhs),
            x1y2: self.x1y2.sub_spec(rhs),
            x2y2: self.x2y2.sub_spec(rhs),
            x3y2: self.x3y2.sub_spec(rhs),
            x4y2: self.x4y2.sub_spec(rhs),
            x1y3: self.x1y3.sub_spec(rhs),
            x2y3: self.x2y3.sub_spec(rhs),
            x3y3: self.x3y3.sub_spec(rhs),
            x4y3: self.x4y3.sub_spec(rhs),
            x1y4: self.x1y4.sub_spec(rhs),
            x2y4: self.x2y4.sub_spec(rhs),
            x3y4: self.x3y4.sub_spec(rhs),
            x4y4: self.x4y4.sub_spec(rhs),
        }
    }
}

impl<N> Div<Matrix4<N>> for Matrix4<N> where
    N: Div<Output = N> + Copy,
{
    type Output = Matrix4<N>;

    /// The quotient of two matrices, component by component: whatever the
    /// element type, each component of the result is a result of its `/`
    /// on the operands' components.
    fn div(self, rhs: Matrix4<N>) -> (r: Matrix4<N>)
        ensures
            N::obeys_div_spec() ==> r@ =~= Seq::new(16, |i: int| self@[i].div_spec(rhs@[i])),
            call_ensures(N::div, (self.x1y1, rhs.x1y1), r.x1y1),
            call_ensures(N::div, (self.x2y1, rhs.x2y1), r.x2y1),
            call_ensures(N::div, (self.x3y1, rhs.x3y1), r.x3y1),
            call_ensures(N::div, (self.x4y1, rhs.x4y1), r.x4y1),
            call_ensures(N::div, (self.x1y2, rhs.x1y2), r.x1y2),
            call_ensures(N::div, (self.x2y2, rhs.x2y2), r.x2y2),
            call_ensures(N::div, (self.x3y2, rhs.x3y2), r.x3y2),
            call_ensures(N::div, (self.x4y2, rhs.x4y2), r.x4y2),
            call_ensures(N::div, (self.x1y3, rhs.x1y3), r.x1y3),
            call_ensures(N::div, (self.x2y3, rhs.x2y3), r.x2y3),
            call_ensures(N::div, (self.x3y3, rhs.x3y3), r.x3y3),
            call_ensures(N::div, (self.x4y3, rhs.x4y3), r.x4y3),
            call_ensures(N::div, (self.x1y4, rhs.x1y4), r.x1y4),
            call_ensures(N::div, (self.x2y4, rhs.x2y4), r.x2y4),
            call_ensures(N::div, (self.x3y4, rhs.x3y4), r.x3y4),
            call_ensures(N::div, (self.x4y4, rhs.x4y4), r.x4y4),
    {
        Matrix4 {
            x1y1: self.x1y1 / rhs.x1y1,
            x2y1: self.x2y1 / rhs.x2y1,
            x3y1: self.x3y1 / rhs.x3y1,
            x4y1: self.x4y1 / rhs.x4y1,
            x1y2: self.x1y2 / rhs.x1y2,
            x2y2: self.x2y2 / rhs.x2y2,
            x3y2: self.x3y2 / rhs.x3y2,
            x4y2: self.x4y2 / rhs.x4y2,
            x1y3: self.x1y3 / rhs.x1y3,
            x2y3: self.x2y3 / rhs.x2y3,
            x3y3: self.x3y3 / rhs.x3y3,
            x4y3: self.x4y3 / rhs.x4y3,
            x1y4: self.x1y4 / rhs.x1y4,
            x2y4: self.x2y4 / rhs.x2y4,
            x3y4: self.x3y4 / rhs.x3y4,
            x4y4: self.x4y4 / rhs.x4y4,
        }
    }
}

impl<N> vstd::std_specs::ops::DivSpecImpl<Matrix4<N>> for Matrix4<N> where
    N: Div<Output = N> + Copy,
{
    open spec fn obeys_div_spec() -> bool {
        N::obeys_div_spec()
    }

    /// Allowed where the element type allows it at every index.
    open spec fn div_req(self, rhs: Matrix4<N>) -> bool {
        &&& self.x1y1.div_req(rhs.x1y1)
        &&& self.x2y1.div_req(rhs.x2y1)
        &&& self.x3y1.div_req(rhs.x3y1)
        &&& self.x4y1.div_req(rhs.x4y1)
        &&& self.x1y2.div_req(rhs.x1y2)
        &&& self.x2y2.div_req(rhs.x2y2)
        &&& self.x3y2.div_req(rhs.x3y2)
        &&& self.x4y2.div_req(rhs.x4y2)
        &&& self.x1y3.div_req(rhs.x1y3)
        &&& self.x2y3.div_req(rhs.x2y3)
        &&& self.x3y3.div_req(rhs.x3y3)
        &&& self.x4y3.div_req(rhs.x4y3)
        &&& self.x1y4.div_req(rhs.x1y4)
        &&& self.x2y4.div_req(rhs.x2y4)
        &&& self.x3y4.div_req(rhs.x3y4)
        &&& self.x4y4.div_req(rhs.x4y4)
    }

    open spec fn div_spec(self, rhs: Matrix4<N>) -> Matrix4<N> {
        Matrix4 {
            x1y1: self.x1y1.div_spec(rhs.x1y1),
            x2y1: self.x2y1.div_spec(rhs.x2y1),
            x3y1: self.x3y1.div_spec(rhs.x3y1),
            x4y1: self.x4y1.div_spec(rhs.x4y1),
            x1y2: self.x1y2.div_spec(rhs.x1y2),
            x2y2: self.x2y2.div_spec(rhs.x2y2),
            x3y2: self.x3y2.div_spec(rhs.x3y2),
            x4y2: self.x4y2.div_spec(rhs.x4y2),
            x1y3: self.x1y3.div_spec(rhs.x1y3),
            x2y3: self.x2y3.div_spec(rhs.x2y3),
            x3y3: self.x3y3.div_spec(rhs.x3y3),
            x4y3: self.x4y3.div_spec(rhs.x4y3),
            x1y4: self.x1y4.div_spec(rhs.x1y4),
            x2y4: self.x2y4.div_spec(rhs.x2y4),
            x3y4: self.x3y4.div_spec(rhs.x3y4),
            x4y4: self.x4y4.div_spec(rhs.x4y4),
        }
    }
}

impl<N> Div<N> for Matrix4<N> where N: Div<Output = N> + Copy {
    type Output = Matrix4<N>;

    /// The quotient of each component and the scalar `rhs`: whatever the
    /// element type, each component of the result is a result of its `/`
    /// on the component and the scalar.
    fn div(self, rhs: N) -> (r: Matrix4<N>)
        ensures
            N::obeys_div_spec() ==> r@ =~= Seq::new(16, |i: int| self@[i].div_spec(rhs)),
            call_ensures(N::div, (self.x1y1, rhs), r.x1y1),
            call_ensures(N::div, (self.x2y1, rhs), r.x2y1),
            call_ensures(N::div, (self.x3y1, rhs), r.x3y1),
            call_ensures(N::div, (self.x4y1, rhs), r.x4y1),
            call_ensures(N::div, (self.x1y2, rhs), r.x1y2),
            call_ensures(N::div, (self.x2y2, rhs), r.x2y2),
            call_ensures(N::div, (self.x3y2, rhs), r.x3y2),
            call_ensures(N::div, (self.x4y2, rhs), r.x4y2),
            call_ensures(N::div, (self.x1y3, rhs), r.x1y3),
            call_ensures(N::div, (self.x2y3, rhs), r.x2y3),
            call_ensures(N::div, (self.x3y3, rhs), r.x3y3),
            call_ensures(N::div, (self.x4y3, rhs), r.x4y3),
            call_ensures(N::div, (self.x1y4, rhs), r.x1y4),
            call_ensures(N::div, (self.x2y4, rhs), r.x2y4),
            call_ensures(N::div, (self.x3y4, rhs), r.x3y4),
            call_ensures(N::div, (self.x4y4, rhs), r.x4y4),
    {
        Matrix4 {
            x1y1: self.x1y1 / rhs,
            x2y1: self.x2y1 / rhs,
            x3y1: self.x3y1 / rhs,
            x4y1: self.x4y1 / rhs,
            x1y2: self.x1y2 / rhs,
            x2y2: self.x2y2 / rhs,
            x3y2: self.x3y2 / rhs,
            x4y2: self.x4y2 / rhs,
            x1y3: self.x1y3 / rhs,
            x2y3: self.x2y3 / rhs,
            x3y3: self.x3y3 / rhs,
            x4y3: self.x4y3 / rhs,
            x1y4: self.x1y4 / rhs,
            x2y4: self.x2y4 / rhs,
            x3y4: self.x3y4 / rhs,
            x4y4: self.x4y4 / rhs,
        }
    }
}

impl<N> vstd::std_specs::ops::DivSpecImpl<N> for Matrix4<N> where N: Div<Output = N> + Copy {
    open spec fn obeys_div_spec() -> bool {
        N::obeys_div_spec()
    }

    /// Allowed where the element type allows it for every component.
    open spec fn div_req(self, rhs: N) -> bool {
        &&& self.x1y1.div_req(rhs)
        &&& self.x2y1.div_req(rhs)
        &&& self.x3y1.div_req(rhs)
        &&& self.x4y1.div_req(rhs)
        &&& self.x1y2.div_req(rhs)
        &&& self.x2y2.div_req(rhs)
        &&& self.x3y2.div_req(rhs)
        &&& self.x4y2.div_req(rhs)
        &&& self.x1y3.div_req(rhs)
        &&& self.x2y3.div_req(rhs)
        &&& self.x3y3.div_req(rhs)
        &&& self.x4y3.div_req(rhs)
        &&& self.x1y4.div_req(rhs)
        &&& self.x2y4.div_req(rhs)
        &&& self.x3y4.div_req(rhs)
        &&& self.x4y4.div_req(rhs)
    }

    open spec fn div_spec(self, rhs: N) -> Matrix4<N> {
        Matrix4 {
            x1y1: self.x1y1.div_spec(rhs),
            x2y1: self.x2y1.div_spec(rhs),
            x3y1: self.x3y1.div_spec(rhs),
            x4y1: self.x4y1.div_spec(rhs),
            x1y2: self.x1y2.div_spec(rhs),
            x2y2: self.x2y2.div_spec(rhs),
            x3y2: self.x3y2.div_spec(rhs),
            x4y2: self.x4y2.div_spec(rhs),
            x1y3: self.x1y3.div_spec(rhs),
            x2y3: self.x2y3.div_spec(rhs),
            x3y3: self.x3y3.div_spec(rhs),
            x4y3: self.x4y3.div_spec(rhs),
            x1y4: self.x1y4.div_spec(rhs),
            x2y4: self.x2y4.div_spec(rhs),
            x3y4: self.x3y4.div_spec(rhs),
            x4y4: self.x4y4.div_spec(rhs),
        }
    }
}

impl<N> Rem<Matrix4<N>> for Matrix4<N> where
    N: Rem<Output = N> + Copy,
{
    type Output = Matrix4<N>;

    /// The remainder of two matrices, component by component: whatever the
    /// element type, each component of the result is a result of its `%`
    /// on the operands' components.
    fn rem(self, rhs: Matrix4<N>) -> (r: Matrix4<N>)
        ensures
            N::obeys_rem_spec() ==> r@ =~= Seq::new(16, |i: int| self@[i].rem_spec(rhs@[i])),
            call_ensures(N::rem, (self.x1y1, rhs.x1y1), r.x1y1),
            call_ensures(N::rem, (self.x2y1, rhs.x2y1), r.x2y1),
            call_ensures(N::rem, (self.x3y1, rhs.x3y1), r.x3y1),
            call_ensures(N::rem, (self.x4y1, rhs.x4y1), r.x4y1),
            call_ensures(N::rem, (self.x1y2, rhs.x1y2), r.x1y2),
            call_ensures(N::rem, (self.x2y2, rhs.x2y2), r.x2y2),
            call_ensures(N::rem, (self.x3y2, rhs.x3y2), r.x3y2),
            call_ensures(N::rem, (self.x4y2, rhs.x4y2), r.x4y2),
            call_ensures(N::rem, (self.x1y3, rhs.x1y3), r.x1y3),
            call_ensures(N::rem, (self.x2y3, rhs.x2y3), r.x2y3),
            call_ensures(N::rem, (self.x3y3, rhs.x3y3), r.x3y3),
            call_ensures(N::rem, (self.x4y3, rhs.x4y3), r.x4y3),
            call_ensures(N::rem, (self.x1y4, rhs.x1y4), r.x1y4),
            call_ensures(N::rem, (self.x2y4, rhs.x2y4), r.x2y4),
            call_ensures(N::rem, (self.x3y4, rhs.x3y4), r.x3y4),
            call_ensures(N::rem, (self.x4y4, rhs.x4y4), r.x4y4),
    {
        Matrix4 {
            x1y1: self.x1y1 % rhs.x1y1,
            x2y1: self.x2y1 % rhs.x2y1,
            x3y1: self.x3y1 % rhs.x3y1,
            x4y1: self.x4y1 % rhs.x4y1,
            x1y2: self.x1y2 % rhs.x1y2,
            x2y2: self.x2y2 % rhs.x2y2,
            x3y2: self.x3y2 % rhs.x3y2,
            x4y2: self.x4y2 % rhs.x4y2,
            x1y3: self.x1y3 % rhs.x1y3,
            x2y3: self.x2y3 % rhs.x2y3,
            x3y3: self.x3y3 % rhs.x3y3,
            x4y3: self.x4y3 % rhs.x4y3,
            x1y4: self.x1y4 % rhs.x1y4,
            x2y4: self.x2y4 % rhs.x2y4,
            x3y4: self.x3y4 % rhs.x3y4,
            x4y4: self.x4y4 % rhs.x4y4,
        }
    }
}

impl<N> vstd::std_specs::ops::RemSpecImpl<Matrix4<N>> for Matrix4<N> where
    N: Rem<Output = N> + Copy,
{
    open spec fn obeys_rem_spec() -> bool {
        N::obeys_rem_spec()
    }

    /// Allowed where the element type allows it at every index.
    open spec fn rem_req(self, rhs: Matrix4<N>) -> bool {
        &&& self.x1y1.rem_req(rhs.x1y1)
        &&& self.x2y1.rem_req(rhs.x2y1)
        &&& self.x3y1.rem_req(rhs.x3y1)
        &&& self.x4y1.rem_req(rhs.x4y1)
        &&& self.x1y2.rem_req(rhs.x1y2)
        &&& self.x2y2.rem_req(rhs.x2y2)
        &&& self.x3y2.rem_req(rhs.x3y2)
        &&& self.x4y2.rem_req(rhs.x4y2)
        &&& self.x1y3.rem_req(rhs.x1y3)
        &&& self.x2y3.rem_req(rhs.x2y3)
        &&& self.x3y3.rem_req(rhs.x3y3)
        &&& self.x4y3.rem_req(rhs.x4y3)
        &&& self.x1y4.rem_req(rhs.x1y4)
        &&& self.x2y4.rem_req(rhs.x2y4)
        &&& self.x3y4.rem_req(rhs.x3y4)
        &&& self.x4y4.rem_req(rhs.x4y4)
    }

    open spec fn rem_spec(self, rhs: Matrix4<N>) -> Matrix4<N> {
        Matrix4 {
            x1y1: self.x1y1.rem_spec(rhs.x1y1),
            x2y1: self.x2y1.rem_spec(rhs.x2y1),
            x3y1: self.x3y1.rem_spec(rhs.x3y1),
            x4y1: self.x4y1.rem_spec(rhs.x4y1),
            x1y2: self.x1y2.rem_spec(rhs.x1y2),
            x2y2: self.x2y2.rem_spec(rhs.x2y2),
            x3y2: self.x3y2.rem_spec(rhs.x3y2),
            x4y2: self.x4y2.rem_spec(rhs.x4y2),
            x1y3: self.x1y3.rem_spec(rhs.x1y3),
            x2y3: self.x2y3.rem_spec(rhs.x2y3),
            x3y3: self.x3y3.rem_spec(rhs.x3y3),
            x4y3: self.x4y3.rem_spec(rhs.x4y3),
            x1y4: self.x1y4.rem_spec(rhs.x1y4),
            x2y4: self.x2y4.rem_spec(rhs.x2y4),
            x3y4: self.x3y4.rem_spec(rhs.x3y4),
            x4y4: self.x4y4.rem_spec(rhs.x4y4),
        }
    }
}

impl<N> Rem<N> for Matrix4<N> where N: Rem<Output = N> + Copy {
    type Output = Matrix4<N>;

    /// The remainder of each component and the scalar `rhs`: whatever the
    /// element type, each component of the result is a result of its `%`
    /// on the component and the scalar.
    fn rem(self, rhs: N) -> (r: Matrix4<N>)
        ensures
            N::obeys_rem_spec() ==> r@ =~= Seq::new(16, |i: int| self@[i].rem_spec(rhs)),
            call_ensures(N::rem, (self.x1y1, rhs), r.x1y1),
            call_ensures(N::rem, (self.x2y1, rhs), r.x2y1),
            call_ensures(N::rem, (self.x3y1, rhs), r.x3y1),
            call_ensures(N::rem, (self.x4y1, rhs), r.x4y1),
            call_ensures(N::rem, (self.x1y2, rhs), r.x1y2),
            call_ensures(N::rem, (self.x2y2, rhs), r.x2y2),
            call_ensures(N::rem, (self.x3y2, rhs), r.x3y2),
            call_ensures(N::rem, (self.x4y2, rhs), r.x4y2),
            call_ensures(N::rem, (self.x1y3, rhs), r.x1y3),
            call_ensures(N::rem, (self.x2y3, rhs), r.x2y3),
            call_ensures(N::rem, (self.x3y3, rhs), r.x3y3),
            call_ensures(N::rem, (self.x4y3, rhs), r.x4y3),
            call_ensures(N::rem, (self.x1y4, rhs), r.x1y4),
            call_ensures(N::rem, (self.x2y4, rhs), r.x2y4),
            call_ensures(N::rem, (self.x3y4, rhs), r.x3y4),
            call_ensures(N::rem, (self.x4y4, rhs), r.x4y4),
    {
        Matrix4 {
            x1y1: self.x1y1 % rhs,
            x2y1: self.x2y1 % rhs,
            x3y1: self.x3y1 % rhs,
            x4y1: self.x4y1 % rhs,
            x1y2: self.x1y2 % rhs,
            x2y2: self.x2y2 % rhs,
            x3y2: self.x3y2 % rhs,
            x4y2: self.x4y2 % rhs,
            x1y3: self.x1y3 % rhs,
            x2y3: self.x2y3 % rhs,
            x3y3: self.x3y3 % rhs,
            x4y3: self.x4y3 % rhs,
            x1y4: self.x1y4 % rhs,
            x2y4: self.x2y4 % rhs,
            x3y4: self.x3y4 % rhs,
            x4y4: self.x4y4 % rhs,
        }
    }
}

impl<N> vstd::std_specs::ops::RemSpecImpl<N> for Matrix4<N> where N: Rem<Output = N> + Copy {
    open spec fn obeys_rem_spec() -> bool {
        N::obeys_rem_spec()
    }

    /// Allowed where the element type allows it for every component.
    open spec fn rem_req(self, rhs: N) -> bool {
        &&& self.x1y1.rem_req(rhs)
        &&& self.x2y1.rem_req(rhs)
        &&& self.x3y1.rem_req(rhs)
        &&& self.x4y1.rem_req(rhs)
        &&& self.x1y2.rem_req(rhs)
        &&& self.x2y2.rem_req(rhs)
        &&& self.x3y2.rem_req(rhs)
        &&& self.x4y2.rem_req(rhs)
        &&& self.x1y3.rem_req(rhs)
        &&& self.x2y3.rem_req(rhs)
        &&& self.x3y3.rem_req(rhs)
        &&& self.x4y3.rem_req(rhs)
        &&& self.x1y4.rem_req(rhs)
        &&& self.x2y4.rem_req(rhs)
        &&& self.x3y4.rem_req(rhs)
        &&& self.x4y4.rem_req(rhs)
    }

    open spec fn rem_spec(self, rhs: N) -> Matrix4<N> {
        Matrix4 {
            x1y1: self.x1y1.rem_spec(rhs),
            x2y1: self.x2y1.rem_spec(rhs),
            x3y1: self.x3y1.rem_spec(rhs),
            x4y1: self.x4y1.rem_spec(rhs),
            x1y2: self.x1y2.rem_spec(rhs),
            x2y2: self.x2y2.rem_spec(rhs),
            x3y2: self.x3y2.rem_spec(rhs),
            x4y2: self.x4y2.rem_spec(rhs),
            x1y3: self.x1y3.rem_spec(rhs),
            x2y3: self.x2y3.rem_spec(rhs),
            x3y3: self.x3y3.rem_spec(rhs),
            x4y3: self.x4y3.rem_spec(rhs),
            x1y4: self.x1y4.rem_spec(rhs),
            x2y4: self.x2y4.rem_spec(rhs),
            x3y4: self.x3y4.rem_spec(rhs),
            x4y4: self.x4y4.rem_spec(rhs),
        }
    }
}

impl<N> Mul<N> for Matrix4<N> where N: Mul<Output = N> + Copy {
    type Output = Matrix4<N>;

    /// The matrix scaled by `rhs`: whatever the element type, each
    /// component of the result is a result of its `*` on the component and
    /// the scalar.
    fn mul(self, rhs: N) -> (r: Matrix4<N>)
        ensures
            N::obeys_mul_spec() ==> r@ =~= Seq::new(16, |i: int| self@[i].mul_spec(rhs)),
            call_ensures(N::mul, (self.x1y1, rhs), r.x1y1),
            call_ensures(N::mul, (self.x2y1, rhs), r.x2y1),
            call_ensures(N::mul, (self.x3y1, rhs), r.x3y1),
            call_ensures(N::mul, (self.x4y1, rhs), r.x4y1),
            call_ensures(N::mul, (self.x1y2, rhs), r.x1y2),
            call_ensures(N::mul, (self.x2y2, rhs), r.x2y2),
            call_ensures(N::mul, (self.x3y2, rhs), r.x3y2),
            call_ensures(N::mul, (self.x4y2, rhs), r.x4y2),
            call_ensures(N::mul, (self.x1y3, rhs), r.x1y3),
            call_ensures(N::mul, (self.x2y3, rhs), r.x2y3),
            call_ensures(N::mul, (self.x3y3, rhs), r.x3y3),
            call_ensures(N::mul, (self.x4y3, rhs), r.x4y3),
            call_ensures(N::mul, (self.x1y4, rhs), r.x1y4),
            call_ensures(N::mul, (self.x2y4, rhs), r.x2y4),
            call_ensures(N::mul, (self.x3y4, rhs), r.x3y4),
            call_ensures(N::mul, (self.x4y4, rhs), r.x4y4),
    {
        Matrix4 {
            x1y1: self.x1y1 * rhs,
            x2y1: self.x2y1 * rhs,
            x3y1: self.x3y1 * rhs,
            x4y1: self.x4y1 * rhs,
            x1y2: self.x1y2 * rhs,
            x2y2: self.x2y2 * rhs,
            x3y2: self.x3y2 * rhs,
            x4y2: self.x4y2 * rhs,
            x1y3: self.x1y3 * rhs,
            x2y3: self.x2y3 * rhs,
            x3y3: self.x3y3 * rhs,
            x4y3: self.x4y3 * rhs,
            x1y4: self.x1y4 * rhs,
            x2y4: self.x2y4 * rhs,
            x3y4: self.x3y4 * rhs,
            x4y4: self.x4y4 * rhs,
        }
    }
}

impl<N> vstd::std_specs::ops::MulSpecImpl<N> for Matrix4<N> where N: Mul<Output = N> + Copy {
    open spec fn obeys_mul_spec() -> bool {
        N::obeys_mul_spec()
    }

    /// Allowed where the element type allows it for every component.
    open spec fn mul_req(self, rhs: N) -> bool {
        &&& self.x1y1.mul_req(rhs)
        &&& self.x2y1.mul_req(rhs)
        &&& self.x3y1.mul_req(rhs)
        &&& self.x4y1.mul_req(rhs)
        &&& self.x1y2.mul_req(rhs)
        &&& self.x2y2.mul_req(rhs)
        &&& self.x3y2.mul_req(rhs)
        &&& self.x4y2.mul_req(rhs)
        &&& self.x1y3.mul_req(rhs)
        &&& self.x2y3.mul_req(rhs)
        &&& self.x3y3.mul_req(rhs)
        &&& self.x4y3.mul_req(rhs)
        &&& self.x1y4.mul_req(rhs)
        &&& self.x2y4.mul_req(rhs)
        &&& self.x3y4.mul_req(rhs)
        &&& self.x4y4.mul_req(rhs)
    }

    open spec fn mul_spec(self, rhs: N) -> Matrix4<N> {
        Matrix4 {
            x1y1: self.x1y1.mul_spec(rhs),
            x2y1: self.x2y1.mul_spec(rhs),
            x3y1: self.x3y1.mul_spec(rhs),
            x4y1: self.x4y1.mul_spec(rhs),
            x1y2: self.x1y2.mul_spec(rhs),
            x2y2: self.x2y2.mul_spec(rhs),
            x3y2: self.x3y2.mul_spec(rhs),
            x4y2: self.x4y2.mul_spec(rhs),
            x1y3: self.x1y3.mul_spec(rhs),
            x2y3: self.x2y3.mul_spec(rhs),
            x3y3: self.x3y3.mul_spec(rhs),
            x4y3: self.x4y3.mul_spec(rhs),
            x1y4: self.x1y4.mul_spec(rhs),
            x2y4: self.x2y4.mul_spec(rhs),
            x3y4: self.x3y4.mul_spec(rhs),
            x4y4: self.x4y4.mul_spec(rhs),
        }
    }
}

impl<N> Index<(usize, usize)> for Matrix4<N> where N: Copy {
    type Output = N;

    /// The component in column `at.0` and row `at.1`, both counted from
    /// zero: the component `at.0 + at.1 * 4` of the flattened matrix.
    fn index(&self, at: (usize, usize)) -> (r: &N)
        ensures
            *r == self@[at.0 + at.1 * 4],
    {
        match at {
            (0, 0) => &self.x1y1,
            (1, 0) => &self.x2y1,
            (2, 0) => &self.x3y1,
            (3, 0) => &self.x4y1,
            (0, 1) => &self.x1y2,
            (1, 1) => &self.x2y2,
            (2, 1) => &self.x3y2,
            (3, 1) => &self.x4y2,
            (0, 2) => &self.x1y3,
            (1, 2) => &self.x2y3,
            (2, 2) => &self.x3y3,
            (3, 2) => &self.x4y3,
            (0, 3) => &self.x1y4,
            (1, 3) => &self.x2y4,
            (2, 3) => &self.x3y4,
            (3, 3) => &self.x4y4,
            _ => unreached(),
        }
    }
}

impl<N> vstd::std_specs::core::IndexSpecImpl<(usize, usize)> for Matrix4<N> where N: Copy {
    /// Both the column and the row must be below 4.
    open spec fn index_req(&self, at: &(usize, usize)) -> bool {
        at.0 < 4 && at.1 < 4
    }
}

impl<N> IndexMut<(usize, usize)> for Matrix4<N> where N: Copy {
    /// The component in column `at.0` and row `at.1`, to be written through:
    /// when the borrow ends, the matrix holds what was left there and is
    /// otherwise unchanged.
    fn index_mut(&mut self, at: (usize, usize)) -> (r: &mut N)
        requires
            at.0 < 4,
            at.1 < 4,
        ensures
            *r == old(self)@[at.0 + at.1 * 4],
            final(self)@ == old(self)@.update(at.0 + at.1 * 4, *final(r)),
    {
        match at {
            (0, 0) => &mut self.x1y1,
            (1, 0) => &mut self.x2y1,
            (2, 0) => &mut self.x3y1,
            (3, 0) => &mut self.x4y1,
            (0, 1) => &mut self.x1y2,
            (1, 1) => &mut self.x2y2,
            (2, 1) => &mut self.x3y2,
            (3, 1) => &mut self.x4y2,
            (0, 2) => &mut self.x1y3,
            (1, 2) => &mut self.x2y3,
            (2, 2) => &mut self.x3y3,
            (3, 2) => &mut self.x4y3,
            (0, 3) => &mut self.x1y4,
            (1, 3) => &mut self.x2y4,
            (2, 3) => &mut self.x3y4,
            (3, 3) => &mut self.x4y4,
            _ => unreached(),
        }
    }
}

impl<N> From<[[N; 4]; 4]> for Matrix4<N> where N: Copy {
    /// The matrix whose rows are the elements of `a`, in order.
    fn from(a: [[N; 4]; 4]) -> (r: Matrix4<N>)
        ensures
            forall|x: int, y: int| 0 <= x < 4 && 0 <= y < 4 ==> r@[x + y * 4] == #[trigger] a[y][x],
    {
        Matrix4 {
            x1y1: a[0][0],
            x2y1: a[0][1],
            x3y1: a[0][2],
            x4y1: a[0][3],
            x1y2: a[1][0],
            x2y2: a[1][1],
            x3y2: a[1][2],
            x4y2: a[1][3],
            x1y3: a[2][0],
            x2y3: a[2][1],
            x3y3: a[2][2],
            x4y3: a[2][3],
            x1y4: a[3][0],
            x2y4: a[3][1],
            x3y4: a[3][2],
            x4y4: a[3][3],
        }
    }
}

impl<N> vstd::std_specs::convert::FromSpecImpl<[[N; 4]; 4]> for Matrix4<N> where N: Copy {
    open spec fn obeys_from_spec() -> bool {
        true
    }

    open spec fn from_spec(a: [[N; 4]; 4]) -> Matrix4<N> {
        Matrix4 {
            x1y1: a[0][0],
            x2y1: a[0][1],
            x3y1: a[0][2],
            x4y1: a[0][3],
            x1y2: a[1][0],
            x2y2: a[1][1],
            x3y2: a[1][2],
            x4y2: a[1][3],
            x1y3: a[2][0],
            x2y3: a[2][1],
            x3y3: a[2][2],
            x4y3: a[2][3],
            x1y4: a[3][0],
            x2y4: a[3][1],
            x3y4: a[3][2],
            x4y4: a[3][3],
        }
    }
}

impl<N> From<Matrix4<N>> for [[N; 4]; 4] where N: Copy {
    /// The array of the rows of `m`, in order.
    fn from(m: Matrix4<N>) -> (r: [[N; 4]; 4])
        ensures
            forall|x: int, y: int| 0 <= x < 4 && 0 <= y < 4 ==> #[trigger] r[y][x] == m@[x + y * 4],
    {
        [
            [m.x1y1, m.x2y1, m.x3y1, m.x4y1],
            [m.x1y2, m.x2y2, m.x3y2, m.x4y2],
            [m.x1y3, m.x2y3, m.x3y3, m.x4y3],
            [m.x1y4, m.x2y4, m.x3y4, m.x4y4],
        ]
    }
}

impl<N> vstd::std_specs::convert::FromSpecImpl<Matrix4<N>> for [[N; 4]; 4] where N: Copy {
    open spec fn obeys_from_spec() -> bool {
        true
    }

    open spec fn from_spec(m: Matrix4<N>) -> [[N; 4]; 4] {
        [
            [m.x1y1, m.x2y1, m.x3y1, m.x4y1],
            [m.x1y2, m.x2y2, m.x3y2, m.x4y2],
            [m.x1y3, m.x2y3, m.x3y3, m.x4y3],
            [m.x1y4, m.x2y4, m.x3y4, m.x4y4],
        ]
    }
}

impl<N> Columnar for Matrix4<N> where N: Copy {
    type Column = Vector4<N>;

    open spec fn ncols_spec(&self) -> nat {
        4
    }

    /// Column `i` holds every component that stands `i` places into its
    /// row.
    open spec fn column_spec(&self, i: int) -> Vector4<N> {
        Vector4 { x: self@[i], y: self@[i + 4], z: self@[i + 8], w: self@[i + 12] }
    }

    fn ncols(&self) -> (n: usize) {
        4
    }

    /// Column `i` as a vector, or `None` where the matrix has no such
    /// column.
    fn column(&self, i: usize) -> (r: Option<Vector4<N>>)
        ensures
            i >= 4 ==> r is None,
            i < 4 ==> r is Some && r.unwrap()@ =~= Seq::new(4, |y: int| self@[i + y * 4]),
    {
        if i >= 4 {
            None
        } else {
            Some(Vector4 { x: self[(i, 0)], y: self[(i, 1)], z: self[(i, 2)], w: self[(i, 3)] })
        }
    }
}

impl<N> Tabular for Matrix4<N> where N: Copy {
    type Row = Vector4<N>;

    open spec fn nrows_spec(&self) -> nat {
        4
    }

    /// Row `i` holds the 4 components from `i * 4` on.
    open spec fn row_spec(&self, i: int) -> Vector4<N> {
        Vector4 {
            x: self@[i * 4],
            y: self@[i * 4 + 1],
            z: self@[i * 4 + 2],
            w: self@[i * 4 + 3],
        }
    }

    fn nrows(&self) -> (n: usize) {
        4
    }

    /// Row `i` as a vector, or `None` where the matrix has no such row.
    fn row(&self, i: usize) -> (r: Option<Vector4<N>>)
        ensures
            i >= 4 ==> r is None,
            i < 4 ==> r is Some && r.unwrap()@ =~= self@.subrange(i * 4, i * 4 + 4),
    {
        if i >= 4 {
            None
        } else {
            Some(Vector4 { x: self[(0, i)], y: self[(1, i)], z: self[(2, i)], w: self[(3, i)] })
        }
    }
}

impl<N> Matrix4<N> where N: Numeric + Copy {
    /// `+`, `-`, `/` and `%` between two matrices work component by
    /// component: the result's component at `i` of the flattened matrix is
    /// that operator applied to the operands' components at `i`, and the
    /// operation is allowed where it is allowed at every index.
    pub proof fn elementwise(m1: Matrix4<N>, m2: Matrix4<N>, i: int)
        requires
            0 <= i < 16,
        ensures
            m1.add_spec(m2)@[i] == m1@[i].add_spec(m2@[i]),
            m1.add_req(m2) ==> m1@[i].add_req(m2@[i]),
            m1.sub_spec(m2)@[i] == m1@[i].sub_spec(m2@[i]),
            m1.sub_req(m2) ==> m1@[i].sub_req(m2@[i]),
            m1.div_spec(m2)@[i] == m1@[i].div_spec(m2@[i]),
            m1.div_req(m2) ==> m1@[i].div_req(m2@[i]),
            m1.rem_spec(m2)@[i] == m1@[i].rem_spec(m2@[i]),
            m1.rem_req(m2) ==> m1@[i].rem_req(m2@[i]),
    {
    }

    /// `+`, `-`, `*`, `/` and `%` between a matrix and a scalar combine
    /// every component with that same scalar.
    pub proof fn scalar_broadcast(m: Matrix4<N>, s: N, i: int)
        requires
            0 <= i < 16,
        ensures
            m.add_spec(s)@[i] == m@[i].add_spec(s),
            m.add_req(s) ==> m@[i].add_req(s),
            m.sub_spec(s)@[i] == m@[i].sub_spec(s),
            m.sub_req(s) ==> m@[i].sub_req(s),
            m.mul_spec(s)@[i] == m@[i].mul_spec(s),
            m.mul_req(s) ==> m@[i].mul_req(s),
            m.div_spec(s)@[i] == m@[i].div_spec(s),
            m.div_req(s) ==> m@[i].div_req(s),
            m.rem_spec(s)@[i] == m@[i].rem_spec(s),
            m.rem_req(s) ==> m@[i].rem_req(s),
    {
    }
}

impl<N> Matrix4<N> where N: Copy {
    /// The array of a matrix holds, in row `y` at place `x`, the component
    /// `x + y * 4` of the flattened matrix.
    pub proof fn array_layout(m: Matrix4<N>, x: int, y: int)
        requires
            0 <= x < 4,
            0 <= y < 4,
        ensures
            <[[N; 4]; 4]>::from_spec(m)[y][x] == m@[x + y * 4],
    {
    }

    /// Going to the array and back gives the matrix again, and going to the
    /// matrix and back gives the array again.
    pub proof fn array_round_trip(m: Matrix4<N>, a: [[N; 4]; 4])
        ensures
            Matrix4::from_spec(<[[N; 4]; 4]>::from_spec(m)) == m,
            <[[N; 4]; 4]>::from_spec(Matrix4::from_spec(a)) == a,
    {
        let back = <[[N; 4]; 4]>::from_spec(Matrix4::from_spec(a));
        assert forall|y: int| 0 <= y < 4 implies back[y] == a[y] by {
            assert(back[y] =~= a[y]);
        }
        assert(back =~= a);
    }
}

} // verus!
