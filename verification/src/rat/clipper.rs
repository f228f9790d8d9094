//! The clipping stage: a soft clipper that runs on a vector of sub-samples
//! between an interpolating and a decimating filter.
pub mod fir_filter;

use crate::float_ext::{operators_exact, operators_total, FloatExt};
use crate::rat::clipper::fir_filter::{is_new_fir, is_reversed, pushed, FirFilter};
use crate::simd_type::{
    clamp_is_odd, dot, is_splat_literal, lanes_deterministic, lanes_exact, lanes_total,
    negation_commutes, SimdType,
};
use vstd::arithmetic::power2::is_pow2;
use vstd::prelude::*;
use vstd::std_specs::ops::{AddSpec, DivSpec, MulSpec, NegSpec};

verus! {

/// The two filters and the gains around them.
pub struct Clipper<V: SimdType> {
    pub upsample_fir: FirFilter<V>,
    pub downsample_fir: FirFilter<V>,
    pub pre_gain: V::Scalar,
    pub post_gain: V::Scalar,
    pub one: V,
    pub lower: V,
    pub upper: V,
}

/// `out` is `x` clipped: `x` is held between `lower` and `upper`, where the
/// curve has long reached its bound and the fourth power is still finite, and
/// is then shaped.
pub open spec fn is_clipped<V: SimdType>(one: V, lower: V, upper: V, x: V, out: V) -> bool {
    exists|held: V| #[trigger]
        call_ensures(V::simd_clamp, (x, lower, upper), held) && is_shaped(one, held, out)
}

/// `out` is `x` shaped: `x / sqrt(sqrt(1 + |x|^4))`, lane by lane.
pub open spec fn is_shaped<V: SimdType>(one: V, x: V, out: V) -> bool {
    exists|magnitude: V|
        {
            &&& call_ensures(V::abs, (x,), magnitude)
            &&& exists|root: V|
                {
                    &&& call_ensures(
                        V::sqrt,
                        (
                            one.add_spec(
                                magnitude.mul_spec(magnitude).mul_spec(
                                    magnitude.mul_spec(magnitude),
                                ),
                            ),
                        ),
                        root,
                    )
                    &&& exists|fourth_root: V|
                        {
                            &&& call_ensures(V::sqrt, (root,), fourth_root)
                            &&& out == x.div_spec(fourth_root)
                        }
                }
        }
}

/// What a sample leaves as it was: the gains, the tables, and all of the
/// interpolating filter's window but its newest vector.
pub open spec fn is_clipper_frame<V: SimdType>(before: Clipper<V>, after: Clipper<V>) -> bool {
    &&& after.pre_gain == before.pre_gain
    &&& after.post_gain == before.post_gain
    &&& after.one == before.one
    &&& after.lower == before.lower
    &&& after.upper == before.upper
    &&& after.upsample_fir.coefficients() == before.upsample_fir.coefficients()
    &&& after.downsample_fir.coefficients() == before.downsample_fir.coefficients()
    &&& after.upsample_fir.zero() == before.upsample_fir.zero()
    &&& after.downsample_fir.zero() == before.downsample_fir.zero()
    &&& after.upsample_fir.factor() == before.upsample_fir.factor()
    &&& after.downsample_fir.factor() == before.downsample_fir.factor()
    &&& after.upsample_fir.window().drop_first() == before.upsample_fir.window().drop_last()
}

/// `out` is the output of the stage for one sample, and `after` the stage once
/// it has been computed.
///
/// The newest vector of the interpolating filter is a vector that `splat` gave
/// for the input times the gain before the clipper times the oversampling
/// factor. The sum of that filter's window times its table is clipped, and the
/// result is the newest vector of the decimating filter. The output is the
/// lane sum of that filter's window, each vector reversed, times its table, at
/// the gain after the clipper.
pub open spec fn is_clipper_step<V: SimdType>(
    before: Clipper<V>,
    input: V::Scalar,
    out: V::Scalar,
    after: Clipper<V>,
) -> bool {
    &&& call_ensures(
        V::splat,
        (input.mul_spec(before.pre_gain).mul_spec(before.upsample_fir.factor()),),
        after.upsample_fir.window()[0],
    )
    &&& exists|clipped: V|
        {
            &&& is_clipped(
                before.one,
                before.lower,
                before.upper,
                dot(
                    after.upsample_fir.window(),
                    after.upsample_fir.coefficients(),
                    after.upsample_fir.zero(),
                ),
                clipped,
            )
            &&& after.downsample_fir.window() == pushed(before.downsample_fir.window(), clipped)
            &&& exists|mirrored: Seq<V>|
                {
                    &&& is_reversed(after.downsample_fir.window(), mirrored)
                    &&& exists|summed: V::Scalar|
                        {
                            &&& call_ensures(
                                V::reduce_sum,
                                (
                                    dot(
                                        mirrored,
                                        after.downsample_fir.coefficients(),
                                        after.downsample_fir.zero(),
                                    ),
                                ),
                                summed,
                            )
                            &&& out == summed.mul_spec(before.post_gain)
                        }
                }
        }
}

/// `stage` is the stage at rest over the two coefficient tables.
pub open spec fn is_new_clipper<V: SimdType>(
    upsample_coefficients: Seq<V>,
    downsample_coefficients: Seq<V>,
    stage: Clipper<V>,
) -> bool {
    &&& is_new_fir(upsample_coefficients, stage.upsample_fir)
    &&& is_new_fir(downsample_coefficients, stage.downsample_fir)
    &&& call_ensures(V::Scalar::literal, ("1.877",), stage.pre_gain)
    &&& call_ensures(V::Scalar::literal, ("0.3204805",), stage.post_gain)
    &&& is_splat_literal("1", stage.one)
    &&& is_splat_literal("-65536", stage.lower)
    &&& is_splat_literal("65536", stage.upper)
}

impl<V: SimdType> Clipper<V> {
    /// Both filters are usable.
    pub open spec fn wf(&self) -> bool {
        &&& self.upsample_fir.wf()
        &&& self.downsample_fir.wf()
    }

    /// The stage over the two coefficient tables, with silence in both
    /// filters.
    pub fn new(upsample_coefficients: Vec<V>, downsample_coefficients: Vec<V>) -> (stage: Self)
        requires
            is_pow2(upsample_coefficients.len() as int),
            is_pow2(downsample_coefficients.len() as int),
        ensures
            stage.wf(),
            is_new_clipper(upsample_coefficients@, downsample_coefficients@, stage),
    {
        Clipper {
            upsample_fir: FirFilter::new(upsample_coefficients),
            downsample_fir: FirFilter::new(downsample_coefficients),
            pre_gain: V::Scalar::literal("1.877"),
            post_gain: V::Scalar::literal("0.3204805"),
            one: V::splat(V::Scalar::literal("1")),
            lower: V::splat(V::Scalar::literal("-65536")),
            upper: V::splat(V::Scalar::literal("65536")),
        }
    }

    /// One sample through the stage: the input at the gain before the clipper
    /// is upsampled, clipped and downsampled, and leaves at the gain after it.
    pub fn process(&mut self, input: V::Scalar) -> (out: V::Scalar)
        requires
            old(self).wf(),
            operators_total::<V::Scalar>(),
            lanes_total::<V>(),
        ensures
            final(self).wf(),
            is_clipper_frame(*old(self), *final(self)),
            operators_exact::<V::Scalar>() && lanes_exact::<V>() ==> is_clipper_step(
                *old(self),
                input,
                out,
                *final(self),
            ),
    {
        let upsampled = self.upsample_fir.upsample(input * self.pre_gain);
        let clipped = self.clip(upsampled);
        self.downsample_fir.downsample(clipped) * self.post_gain
    }

    /// The soft clipper on one vector of sub-samples.
    pub fn clip(&self, x: V) -> (out: V)
        requires
            lanes_total::<V>(),
        ensures
            lanes_exact::<V>() ==> is_clipped(self.one, self.lower, self.upper, x, out),
    {
        let held = x.simd_clamp(self.lower, self.upper);
        let x_abs = held.abs();
        let x2 = x_abs * x_abs;
        let x4 = x2 * x2;
        let a = self.one + x4;
        let out = held / a.sqrt().sqrt();
        assert(lanes_exact::<V>() ==> is_shaped(self.one, held, out));
        out
    }
}

/// The clipper is odd: where negation commutes with the operators and with
/// the holding of a vector between the two limits, the negation of a clipped
/// `-x` is a clipped `x`.
pub proof fn lemma_clip_is_odd<V: SimdType>(one: V, lower: V, upper: V, x: V, out: V)
    requires
        negation_commutes::<V>(),
        clamp_is_odd(lower, upper),
        is_clipped(one, lower, upper, x.neg_spec(), out),
    ensures
        is_clipped(one, lower, upper, x, out.neg_spec()),
{
    let held = choose|held: V|
        call_ensures(V::simd_clamp, (x.neg_spec(), lower, upper), held) && is_shaped(
            one,
            held,
            out,
        );
    assert(held.neg_spec().neg_spec() == held);
    lemma_shape_is_odd(one, held.neg_spec(), out);
    assert(call_ensures(V::simd_clamp, (x, lower, upper), held.neg_spec()));
}

/// The shape of the clipper is odd where negation commutes with the
/// operators.
pub proof fn lemma_shape_is_odd<V: SimdType>(one: V, x: V, out: V)
    requires
        negation_commutes::<V>(),
        is_shaped(one, x.neg_spec(), out),
    ensures
        is_shaped(one, x, out.neg_spec()),
{
    let magnitude = choose|magnitude: V|
        {
            &&& call_ensures(V::abs, (x.neg_spec(),), magnitude)
            &&& exists|root: V|
                {
                    &&& call_ensures(
                        V::sqrt,
                        (
                            one.add_spec(
                                magnitude.mul_spec(magnitude).mul_spec(
                                    magnitude.mul_spec(magnitude),
                                ),
                            ),
                        ),
                        root,
                    )
                    &&& exists|fourth_root: V|
                        {
                            &&& call_ensures(V::sqrt, (root,), fourth_root)
                            &&& out == x.neg_spec().div_spec(fourth_root)
                        }
                }
        };
    let root = choose|root: V|
        {
            &&& call_ensures(
                V::sqrt,
                (
                    one.add_spec(
                        magnitude.mul_spec(magnitude).mul_spec(magnitude.mul_spec(magnitude)),
                    ),
                ),
                root,
            )
            &&& exists|fourth_root: V|
                {
                    &&& call_ensures(V::sqrt, (root,), fourth_root)
                    &&& out == x.neg_spec().div_spec(fourth_root)
                }
        };
    let fourth_root = choose|fourth_root: V|
        call_ensures(V::sqrt, (root,), fourth_root) && out == x.neg_spec().div_spec(fourth_root);
    assert(call_ensures(V::abs, (x,), magnitude));
    assert(out == x.div_spec(fourth_root).neg_spec());
    assert(out.neg_spec() == x.div_spec(fourth_root));
}

/// Clipping the negation gives the negation: where the lane-wise functions
/// give one result for one argument and negation commutes with them, the
/// clipped `-x` is the negation of the clipped `x`.
pub proof fn lemma_clip_of_negation<V: SimdType>(
    one: V,
    lower: V,
    upper: V,
    x: V,
    out: V,
    mirrored: V,
)
    requires
        negation_commutes::<V>(),
        clamp_is_odd(lower, upper),
        lanes_deterministic::<V>(),
        is_clipped(one, lower, upper, x, out),
        is_clipped(one, lower, upper, x.neg_spec(), mirrored),
    ensures
        mirrored == out.neg_spec(),
{
    lemma_clip_is_odd(one, lower, upper, x, mirrored);
    lemma_clip_is_a_function(one, lower, upper, x, out, mirrored.neg_spec());
    assert(mirrored.neg_spec().neg_spec() == mirrored);
}

/// Where the lane-wise functions give one result for one argument, so does
/// the clipper.
pub proof fn lemma_clip_is_a_function<V: SimdType>(
    one: V,
    lower: V,
    upper: V,
    x: V,
    out: V,
    other: V,
)
    requires
        lanes_deterministic::<V>(),
        is_clipped(one, lower, upper, x, out),
        is_clipped(one, lower, upper, x, other),
    ensures
        out == other,
{
}

} // verus!
