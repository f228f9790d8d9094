//! The numeric capability that every engine in this crate is generic over.
//!
//! The engines never name a concrete floating-point type. They compute with the
//! arithmetic operators of a sample type `T` and with the elementary functions
//! that `T` supplies through [`FloatExt`]. Contracts speak of the operators
//! through their specification functions (`add_spec`, `mul_spec`, ...), and of
//! the elementary functions through `call_ensures`: a result is described as
//! "a value that `T::exp` returned for this argument", never as a number.
use core::cmp::Ordering;
use core::ops::{Add, Div, Mul, Neg, Sub};
use vstd::prelude::*;
use vstd::std_specs::cmp::{PartialEqSpec, PartialOrdSpec};
use vstd::std_specs::ops::{AddSpec, DivSpec, MulSpec, NegSpec, SubSpec};

verus! {

/// A scalar sample type: the arithmetic operators plus the elementary functions
/// and conversions that the engines need.
///
/// The methods carry no contract. An implementation for a binary floating-point
/// type forwards each of them to the operation of the same name.
pub trait FloatExt: Copy + Add<Output = Self> + Sub<Output = Self> + Mul<Output = Self> + Div<
    Output = Self,
> + Neg<Output = Self> + PartialEq + PartialOrd {
    /// The value of this type nearest to the decimal number written in `text`.
    fn literal(text: &str) -> Self;

    /// The value nearest to the integer `n`.
    fn from_usize(n: usize) -> Self;

    /// The value nearest to the integer `n`.
    fn from_i32(n: i32) -> Self;

    /// The integer part, saturated to the range of `usize`.
    fn to_usize(self) -> usize;

    /// The integer part, saturated to the range of `i32`.
    fn to_i32(self) -> i32;

    /// The absolute value.
    fn abs(self) -> Self;

    /// The value rounded toward zero to a whole number.
    fn trunc(self) -> Self;

    /// The value rounded to the nearest whole number, halves away from zero.
    fn round(self) -> Self;

    /// The square root.
    fn sqrt(self) -> Self;

    /// The exponential function.
    fn exp(self) -> Self;

    /// The value raised to the power `n`.
    fn powf(self, n: Self) -> Self;

    /// The base-ten logarithm.
    fn log10(self) -> Self;

    /// The tangent of an angle in radians.
    fn tan(self) -> Self;

    /// The cosine of an angle in radians.
    fn cos(self) -> Self;

    /// The distance from one to the next larger value of the type.
    fn epsilon() -> Self;
}

/// The operators of `T` accept every pair of operands.
pub open spec fn operators_total<T: FloatExt>() -> bool {
    &&& forall|a: T, b: T| #[trigger] a.add_req(b)
    &&& forall|a: T, b: T| #[trigger] a.sub_req(b)
    &&& forall|a: T, b: T| #[trigger] a.mul_req(b)
    &&& forall|a: T, b: T| #[trigger] a.div_req(b)
    &&& forall|a: T| #[trigger] a.neg_req()
}

/// The operators of `T` compute their specification functions.
pub open spec fn operators_exact<T: FloatExt>() -> bool {
    &&& T::obeys_add_spec()
    &&& T::obeys_sub_spec()
    &&& T::obeys_mul_spec()
    &&& T::obeys_div_spec()
    &&& T::obeys_neg_spec()
    &&& T::obeys_eq_spec()
    &&& T::obeys_partial_cmp_spec()
}

/// `c` is a value that `T::literal` gave for `text`.
pub open spec fn is_literal<T: FloatExt>(text: &str, c: T) -> bool {
    call_ensures(T::literal, (text,), c)
}

/// `a < b` as `T` orders its values.
pub open spec fn is_lt<T: FloatExt>(a: T, b: T) -> bool {
    a.partial_cmp_spec(&b) == Some(Ordering::Less)
}

/// `a <= b` as `T` orders its values.
pub open spec fn is_le<T: FloatExt>(a: T, b: T) -> bool {
    a.partial_cmp_spec(&b) matches Some(Ordering::Less | Ordering::Equal)
}

/// `a > b` as `T` orders its values.
pub open spec fn is_gt<T: FloatExt>(a: T, b: T) -> bool {
    a.partial_cmp_spec(&b) == Some(Ordering::Greater)
}

/// `a >= b` as `T` orders its values.
pub open spec fn is_ge<T: FloatExt>(a: T, b: T) -> bool {
    a.partial_cmp_spec(&b) matches Some(Ordering::Greater | Ordering::Equal)
}

/// The larger of `x` and `floor`, and `floor` where the two do not compare.
pub open spec fn at_least_spec<T: FloatExt>(x: T, floor: T) -> T {
    if is_ge(x, floor) {
        x
    } else {
        floor
    }
}

/// Clamps `x` from below.
pub fn at_least<T: FloatExt>(x: T, floor: T) -> (r: T)
    ensures
        operators_exact::<T>() ==> r == at_least_spec(x, floor),
        r == x || r == floor,
{
    if x >= floor {
        x
    } else {
        floor
    }
}

/// A duration of `time` milliseconds as a number of samples, with `milli` the
/// thousandth of the type: `time * milli * sample_rate`.
pub open spec fn mstosamps_spec<T: FloatExt>(time: T, milli: T, sample_rate: T) -> T {
    time.mul_spec(milli).mul_spec(sample_rate)
}

/// A duration in milliseconds as a number of samples.
pub fn mstosamps<T: FloatExt>(time: T, milli: T, sample_rate: T) -> (samples: T)
    requires
        operators_total::<T>(),
    ensures
        operators_exact::<T>() ==> samples == mstosamps_spec(time, milli, sample_rate),
{
    time * milli * sample_rate
}

/// `level` says whether `a` and `b` are no further apart than `epsilon`: the
/// magnitude of their difference, as `T::abs` gives it, is at most `epsilon`.
pub open spec fn is_level<T: FloatExt>(a: T, b: T, epsilon: T, level: bool) -> bool {
    exists|distance: T| #[trigger]
        call_ensures(T::abs, (a.sub_spec(b),), distance) && level == is_le(distance, epsilon)
}

/// Whether two values are close enough to be treated as the same level.
pub fn is_equal_to<T: FloatExt>(a: T, b: T, epsilon: T) -> (level: bool)
    requires
        operators_total::<T>(),
    ensures
        operators_exact::<T>() ==> is_level(a, b, epsilon, level),
{
    (a - b).abs() <= epsilon
}

} // verus!
