use std::ops::Add;
use std::ops::Div;
use std::ops::Mul;
use std::ops::Rem;
use std::ops::Sub;
use vstd::prelude::*;
use vstd::std_specs::ops::AddSpec;
use vstd::std_specs::ops::MulSpec;

verus! {

/// A scalar that can be an element of a vector or of a matrix.
///
/// The type is closed under `+`, `-`, `*`, `/` and `%`, can be compared, and
/// names its additive and its multiplicative identity. What an operator does
/// on overflow or on a zero divisor is the element type's own business: the
/// operators of this crate ask of their operands exactly what the element's
/// operator asks.
pub trait Numeric:
    PartialEq
    + PartialOrd
    + Add<Output = Self>
    + Sub<Output = Self>
    + Mul<Output = Self>
    + Div<Output = Self>
    + Rem<Output = Self>
    + Sized
{
    /// The additive identity.
    spec fn zero_spec() -> Self;

    /// The multiplicative identity.
    spec fn one_spec() -> Self;

    fn zero() -> (r: Self)
        ensures
            r == Self::zero_spec(),
    ;

    fn one() -> (r: Self)
        ensures
            r == Self::one_spec(),
    ;

    /// Adding zero is always allowed and changes nothing.
    proof fn zero_is_additive_identity(x: Self)
        ensures
            Self::obeys_add_spec(),
            x.add_req(Self::zero_spec()),
            x.add_spec(Self::zero_spec()) == x,
    ;

    /// Multiplying by one is always allowed and changes nothing.
    proof fn one_is_multiplicative_identity(x: Self)
        ensures
            Self::obeys_mul_spec(),
            x.mul_req(Self::one_spec()),
            x.mul_spec(Self::one_spec()) == x,
    ;
}

impl Numeric for u8 {
    open spec fn zero_spec() -> u8 {
        0
    }

    open spec fn one_spec() -> u8 {
        1
    }

    fn zero() -> (r: u8) {
        0
    }

    fn one() -> (r: u8) {
        1
    }

    proof fn zero_is_additive_identity(x: u8) {
    }

    proof fn one_is_multiplicative_identity(x: u8) {
    }
}

impl Numeric for u16 {
    open spec fn zero_spec() -> u16 {
        0
    }

    open spec fn one_spec() -> u16 {
        1
    }

    fn zero() -> (r: u16) {
        0
    }

    fn one() -> (r: u16) {
        1
    }

    proof fn zero_is_additive_identity(x: u16) {
    }

    proof fn one_is_multiplicative_identity(x: u16) {
    }
}

impl Numeric for u32 {
    open spec fn zero_spec() -> u32 {
        0
    }

    open spec fn one_spec() -> u32 {
        1
    }

    fn zero() -> (r: u32) {
        0
    }

    fn one() -> (r: u32) {
        1
    }

    proof fn zero_is_additive_identity(x: u32) {
    }

    proof fn one_is_multiplicative_identity(x: u32) {
    }
}

impl Numeric for u64 {
    open spec fn zero_spec() -> u64 {
        0
    }

    open spec fn one_spec() -> u64 {
        1
    }

    fn zero() -> (r: u64) {
        0
    }

    fn one() -> (r: u64) {
        1
    }

    proof fn zero_is_additive_identity(x: u64) {
    }

    proof fn one_is_multiplicative_identity(x: u64) {
    }
}

impl Numeric for usize {
    open spec fn zero_spec() -> usize {
        0
    }

    open spec fn one_spec() -> usize {
        1
    }

    fn zero() -> (r: usize) {
        0
    }

    fn one() -> (r: usize) {
        1
    }

    proof fn zero_is_additive_identity(x: usize) {
    }

    proof fn one_is_multiplicative_identity(x: usize) {
    }
}

impl Numeric for i8 {
    open spec fn zero_spec() -> i8 {
        0
    }

    open spec fn one_spec() -> i8 {
        1
    }

    fn zero() -> (r: i8) {
        0
    }

    fn one() -> (r: i8) {
        1
    }

    proof fn zero_is_additive_identity(x: i8) {
    }

    proof fn one_is_multiplicative_identity(x: i8) {
    }
}

impl Numeric for i16 {
    open spec fn zero_spec() -> i16 {
        0
    }

    open spec fn one_spec() -> i16 {
        1
    }

    fn zero() -> (r: i16) {
        0
    }

    fn one() -> (r: i16) {
        1
    }

    proof fn zero_is_additive_identity(x: i16) {
    }

    proof fn one_is_multiplicative_identity(x: i16) {
    }
}

impl Numeric for i32 {
    open spec fn zero_spec() -> i32 {
        0
    }

    open spec fn one_spec() -> i32 {
        1
    }

    fn zero() -> (r: i32) {
        0
    }

    fn one() -> (r: i32) {
        1
    }

    proof fn zero_is_additive_identity(x: i32) {
    }

    proof fn one_is_multiplicative_identity(x: i32) {
    }
}

impl Numeric for i64 {
    open spec fn zero_spec() -> i64 {
        0
    }

    open spec fn one_spec() -> i64 {
        1
    }

    fn zero() -> (r: i64) {
        0
    }

    fn one() -> (r: i64) {
        1
    }

    proof fn zero_is_additive_identity(x: i64) {
    }

    proof fn one_is_multiplicative_identity(x: i64) {
    }
}

impl Numeric for isize {
    open spec fn zero_spec() -> isize {
        0
    }

    open spec fn one_spec() -> isize {
        1
    }

    fn zero() -> (r: isize) {
        0
    }

    fn one() -> (r: isize) {
        1
    }

    proof fn zero_is_additive_identity(x: isize) {
    }

    proof fn one_is_multiplicative_identity(x: isize) {
    }
}

} // verus!
