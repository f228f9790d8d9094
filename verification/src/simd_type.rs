//! The vector capability of the oversampled stages: a fixed number of lanes,
//! each lane one sub-sample of an oversampled block.
use crate::float_ext::FloatExt;
use core::ops::{Add, Div, Mul, Neg, Sub};
use vstd::prelude::*;
use vstd::std_specs::ops::{AddSpec, DivSpec, MulSpec, NegSpec, SubSpec};

verus! {

/// A vector of samples with lane-wise operators.
///
/// The methods carry no contract. An implementation over `N` lanes of a scalar
/// type forwards the operators and `abs`, `sqrt` to each lane.
pub trait SimdType: Copy + Add<Output = Self> + Sub<Output = Self> + Mul<Output = Self> + Div<
    Output = Self,
> + Neg<Output = Self> {
    /// The type of one lane.
    type Scalar: FloatExt;

    /// The number of lanes, which is the oversampling factor.
    fn oversample_factor() -> usize;

    /// The vector with `input` in every lane.
    fn splat(input: Self::Scalar) -> Self;

    /// The sum of the lanes.
    fn reduce_sum(self) -> Self::Scalar;

    /// The lanes in the opposite order.
    fn reverse(self) -> Self;

    /// The absolute value of each lane.
    fn abs(self) -> Self;

    /// The square root of each lane.
    fn sqrt(self) -> Self;

    /// Each lane held between the lanes of `min` and `max`.
    fn simd_clamp(self, min: Self, max: Self) -> Self;
}

/// The lane-wise operators of `V` accept every pair of operands.
pub open spec fn lanes_total<V: SimdType>() -> bool {
    &&& forall|a: V, b: V| #[trigger] a.add_req(b)
    &&& forall|a: V, b: V| #[trigger] a.sub_req(b)
    &&& forall|a: V, b: V| #[trigger] a.mul_req(b)
    &&& forall|a: V, b: V| #[trigger] a.div_req(b)
    &&& forall|a: V| #[trigger] a.neg_req()
}

/// The lane-wise operators of `V` compute their specification functions.
pub open spec fn lanes_exact<V: SimdType>() -> bool {
    &&& V::obeys_add_spec()
    &&& V::obeys_sub_spec()
    &&& V::obeys_mul_spec()
    &&& V::obeys_div_spec()
    &&& V::obeys_neg_spec()
}

/// Negation commutes with the lane-wise operators and leaves the absolute
/// value alone, as it does for binary floating-point numbers.
pub open spec fn negation_commutes<V: SimdType>() -> bool {
    &&& forall|a: V| #[trigger] a.neg_spec().neg_spec() == a
    &&& forall|a: V, b: V| #[trigger] a.neg_spec().mul_spec(b) == a.mul_spec(b).neg_spec()
    &&& forall|a: V, b: V| #[trigger] a.mul_spec(b.neg_spec()) == a.mul_spec(b).neg_spec()
    &&& forall|a: V, b: V| #[trigger]
        a.neg_spec().add_spec(b.neg_spec()) == a.add_spec(b).neg_spec()
    &&& forall|a: V, b: V| #[trigger] a.neg_spec().div_spec(b) == a.div_spec(b).neg_spec()
    &&& forall|a: V, magnitude: V| #[trigger]
        call_ensures(V::abs, (a.neg_spec(),), magnitude) ==> call_ensures(V::abs, (a,), magnitude)
}

/// Holding a vector between `lower` and `upper` commutes with negation, as it
/// does where `lower` is the negation of `upper`.
pub open spec fn clamp_is_odd<V: SimdType>(lower: V, upper: V) -> bool {
    forall|a: V, held: V| #[trigger]
        call_ensures(V::simd_clamp, (a.neg_spec(), lower, upper), held) ==> call_ensures(
            V::simd_clamp,
            (a, lower, upper),
            held.neg_spec(),
        )
}

/// The lane-wise functions give one result for one argument.
pub open spec fn lanes_deterministic<V: SimdType>() -> bool {
    &&& forall|a: V, r: V, s: V|
        #[trigger] call_ensures(V::abs, (a,), r) && #[trigger] call_ensures(V::abs, (a,), s)
            ==> r == s
    &&& forall|a: V, r: V, s: V|
        #[trigger] call_ensures(V::sqrt, (a,), r) && #[trigger] call_ensures(V::sqrt, (a,), s)
            ==> r == s
    &&& forall|a: V, lower: V, upper: V, r: V, s: V|
        #[trigger] call_ensures(V::simd_clamp, (a, lower, upper), r) && #[trigger] call_ensures(
            V::simd_clamp,
            (a, lower, upper),
            s,
        ) ==> r == s
}

/// `vector` is a vector that `splat` gave for the scalar that `text` names.
pub open spec fn is_splat_literal<V: SimdType>(text: &str, vector: V) -> bool {
    exists|c: V::Scalar| #[trigger]
        call_ensures(V::Scalar::literal, (text,), c) && call_ensures(V::splat, (c,), vector)
}

/// The sum of the products of two sequences, entry by entry, added from the
/// first pair to the last onto `init`. Entries without a partner are left out.
pub open spec fn dot<V: SimdType>(xs: Seq<V>, cs: Seq<V>, init: V) -> V
    decreases xs.len(),
{
    if xs.len() == 0 {
        init
    } else if xs.len() > cs.len() {
        dot(xs.drop_last(), cs, init)
    } else {
        dot(xs.drop_last(), cs, init).add_spec(xs.last().mul_spec(cs[xs.len() - 1]))
    }
}

} // verus!
