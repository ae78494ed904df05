pub mod matrix2;
pub mod matrix3;
pub mod matrix4;

pub use matrix2::Matrix2;
pub use matrix3::Matrix3;
pub use matrix4::Matrix4;

use std::cmp::Ordering;
use vstd::prelude::*;

verus! {

/// A matrix over the element type `N`: something with a number of rows and
/// a number of columns.
pub trait Matrix<N>: Sized {
    /// The number of rows.
    spec fn nrows_spec(&self) -> nat;

    /// The number of columns.
    spec fn ncols_spec(&self) -> nat;

    fn nrows(&self) -> (n: usize)
        ensures
            n == self.nrows_spec(),
    ;

    fn ncols(&self) -> (n: usize)
        ensures
            n == self.ncols_spec(),
    ;
}

/// Whether a comparison found its two sides equal.
pub(crate) fn is_equal(c: Option<Ordering>) -> (r: bool)
    ensures
        r == (c == Some(Ordering::Equal)),
{
    match c {
        Some(Ordering::Equal) => true,
        _ => false,
    }
}

} // verus!
