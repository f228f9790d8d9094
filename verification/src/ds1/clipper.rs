//! The clipping stage: a rational-polynomial saturator that runs at the
//! oversampled rate behind a fixed lowpass.
use crate::ds1::shared::lowpass_filter::{is_lowpass_step, is_new_lowpass, LowpassFilter};
use crate::float_ext::{operators_exact, operators_total, FloatExt};
use crate::oversample::fir_filter::SimdFir;
use crate::oversample::{
    is_new_oversample, is_oversample_step, upsampled, Oversample, FIR_LENGTH,
};
use crate::simd_type::{
    clamp_is_odd, is_splat_literal, lanes_deterministic, lanes_exact, lanes_total,
    negation_commutes, SimdType,
};
use vstd::prelude::*;
use vstd::std_specs::ops::{AddSpec, DivSpec, MulSpec, NegSpec};

verus! {

/// The constants of the saturator: one, the two coefficients of its
/// polynomial, and the limits that its input is held between.
#[derive(Clone, Copy)]
pub struct Saturator<V> {
    pub one: V,
    pub c1: V,
    pub c3: V,
    pub lower: V,
    pub upper: V,
}

/// The lowpass, the oversampler and the saturator.
pub struct Clipper<V: SimdType> {
    pub lowpass_filter: LowpassFilter<V::Scalar>,
    pub oversample: Oversample<V>,
    pub cutoff: V::Scalar,
    pub saturator: Saturator<V>,
}

/// The polynomial of the saturator: `x + c1 * x^3 + c3 * x^5`.
pub open spec fn saturator_polynomial<V: SimdType>(c1: V, c3: V, x: V) -> V {
    let x2 = x.mul_spec(x);
    let x3 = x2.mul_spec(x);
    let x5 = x3.mul_spec(x2);
    x.add_spec(c1.mul_spec(x3)).add_spec(c3.mul_spec(x5))
}

/// `out` is `x` shaped: with `a` the polynomial of `x`, `a / sqrt(1 + a^2)`,
/// lane by lane.
pub open spec fn is_shaped<V: SimdType>(shape: Saturator<V>, x: V, out: V) -> bool {
    let a = saturator_polynomial(shape.c1, shape.c3, x);
    exists|root: V| #[trigger]
        call_ensures(V::sqrt, (shape.one.add_spec(a.mul_spec(a)),), root) && out == a.div_spec(
            root,
        )
}

/// `out` is `x` saturated: `x` is held between the two limits, where the curve
/// has long reached its bound and the square of the polynomial is still
/// finite, and is then shaped.
pub open spec fn is_saturated<V: SimdType>(shape: Saturator<V>, x: V, out: V) -> bool {
    exists|held: V| #[trigger]
        call_ensures(V::simd_clamp, (x, shape.lower, shape.upper), held) && is_shaped(
            shape,
            held,
            out,
        )
}

/// `shape` holds the constants of the saturator.
pub open spec fn is_new_saturator<V: SimdType>(shape: Saturator<V>) -> bool {
    &&& is_splat_literal("1.0", shape.one)
    &&& is_splat_literal("0.16489087", shape.c1)
    &&& is_splat_literal("0.00985468", shape.c3)
    &&& is_splat_literal("-1024", shape.lower)
    &&& is_splat_literal("1024", shape.upper)
}

/// The saturator on one vector of sub-samples.
pub fn saturate<V: SimdType>(shape: Saturator<V>, x: V) -> (out: V)
    requires
        lanes_total::<V>(),
    ensures
        lanes_exact::<V>() ==> is_saturated(shape, x, out),
{
    let held = x.simd_clamp(shape.lower, shape.upper);
    let x2 = held * held;
    let x3 = x2 * held;
    let x5 = x3 * x2;
    let a = held + (shape.c1 * x3) + (shape.c3 * x5);
    assert(lanes_exact::<V>() ==> a == saturator_polynomial(shape.c1, shape.c3, held));
    let out = a / (shape.one + (a * a)).sqrt();
    assert(lanes_exact::<V>() ==> is_shaped(shape, held, out));
    out
}

/// `out` is the output of the stage for one sample, and `after` the stage once
/// it has been computed: the input passes the lowpass, is upsampled,
/// saturated and downsampled, and leaves at the gain of the oversampler.
pub open spec fn is_clipper_step<V: SimdType>(
    before: Clipper<V>,
    input: V::Scalar,
    out: V::Scalar,
    after: Clipper<V>,
) -> bool {
    exists|filtered: V::Scalar|
        {
            &&& is_lowpass_step(
                before.lowpass_filter,
                input,
                before.cutoff,
                filtered,
                after.lowpass_filter,
            )
            &&& is_oversampled(before, filtered, out, after)
        }
}

/// `out` is `filtered` through the oversampled saturator.
pub open spec fn is_oversampled<V: SimdType>(
    before: Clipper<V>,
    filtered: V::Scalar,
    out: V::Scalar,
    after: Clipper<V>,
) -> bool {
    exists|shaped: V|
        {
            &&& is_saturated(before.saturator, upsampled(after.oversample), shaped)
            &&& #[trigger] is_oversample_step(
                before.oversample,
                filtered,
                shaped,
                out,
                after.oversample,
            )
        }
}

/// `stage` is the stage at rest for `sample_rate` over the two coefficient
/// tables of the oversampler.
pub open spec fn is_new_clipper<V: SimdType>(
    sample_rate: V::Scalar,
    upsample_coefficients: Seq<V>,
    downsample_coefficients: Seq<V>,
    stage: Clipper<V>,
) -> bool {
    &&& is_new_lowpass(sample_rate, stage.lowpass_filter)
    &&& call_ensures(V::Scalar::literal, ("0.558838",), stage.oversample.gain)
    &&& is_new_oversample(
        upsample_coefficients,
        downsample_coefficients,
        stage.oversample.gain,
        stage.oversample,
    )
    &&& call_ensures(V::Scalar::literal, ("7230",), stage.cutoff)
    &&& is_new_saturator(stage.saturator)
}

impl<V: SimdType> Clipper<V> {
    /// The oversampler is usable.
    pub open spec fn wf(&self) -> bool {
        self.oversample.wf()
    }

    /// The stage at rest over the two coefficient tables of the oversampler,
    /// each sixteen vectors long.
    pub fn new(
        sample_rate: V::Scalar,
        upsample_coefficients: Vec<V>,
        downsample_coefficients: Vec<V>,
    ) -> (stage: Self)
        requires
            upsample_coefficients.len() == FIR_LENGTH,
            downsample_coefficients.len() == FIR_LENGTH,
        ensures
            stage.wf(),
            is_new_clipper(sample_rate, upsample_coefficients@, downsample_coefficients@, stage),
    {
        Clipper {
            lowpass_filter: LowpassFilter::new(sample_rate),
            oversample: Oversample::new(
                upsample_coefficients,
                downsample_coefficients,
                V::Scalar::literal("0.558838"),
            ),
            cutoff: V::Scalar::literal("7230"),
            saturator: Saturator {
                one: V::splat(V::Scalar::literal("1.0")),
                c1: V::splat(V::Scalar::literal("0.16489087")),
                c3: V::splat(V::Scalar::literal("0.00985468")),
                lower: V::splat(V::Scalar::literal("-1024")),
                upper: V::splat(V::Scalar::literal("1024")),
            },
        }
    }

    /// One sample through the stage.
    pub fn process(&mut self, input: V::Scalar) -> (out: V::Scalar)
        requires
            old(self).wf(),
            operators_total::<V::Scalar>(),
            lanes_total::<V>(),
        ensures
            final(self).wf(),
            operators_exact::<V::Scalar>() && lanes_exact::<V>() ==> is_clipper_step(
                *old(self),
                input,
                out,
                *final(self),
            ),
            *final(self) == (Clipper {
                lowpass_filter: final(self).lowpass_filter,
                oversample: final(self).oversample,
                ..*old(self)
            }),
    {
        let filtered = self.lowpass_filter.process(input, self.cutoff);
        let shape = self.saturator;
        let shaper = move |x: V| -> (y: V)
            requires
                lanes_total::<V>(),
            ensures
                lanes_exact::<V>() ==> is_saturated(shape, x, y),
            { saturate(shape, x) };
        let out = self.oversample.process(filtered, shaper);
        proof {
            if operators_exact::<V::Scalar>() && lanes_exact::<V>() {
                let shaped = choose|shaped: V|
                    call_ensures(shaper, (upsampled(self.oversample),), shaped)
                        && is_oversample_step(
                        old(self).oversample,
                        filtered,
                        shaped,
                        out,
                        self.oversample,
                    );
                assert(is_saturated(shape, upsampled(self.oversample), shaped));
                assert(is_oversampled(*old(self), filtered, out, *self));
            }
        }
        out
    }
}

/// The polynomial of the saturator is odd where negation commutes with the
/// operators.
pub proof fn lemma_polynomial_is_odd<V: SimdType>(c1: V, c3: V, x: V)
    requires
        negation_commutes::<V>(),
    ensures
        saturator_polynomial(c1, c3, x.neg_spec()) == saturator_polynomial(c1, c3, x).neg_spec(),
{
    let x2 = x.mul_spec(x);
    let x3 = x2.mul_spec(x);
    let x5 = x3.mul_spec(x2);
    let y = x.neg_spec();
    let y2 = y.mul_spec(y);
    assert(y2 == x2) by {
        assert(y.mul_spec(x.neg_spec()) == y.mul_spec(x).neg_spec());
        assert(x.neg_spec().mul_spec(x) == x.mul_spec(x).neg_spec());
    }
    let y3 = y2.mul_spec(y);
    assert(y3 == x3.neg_spec());
    let y5 = y3.mul_spec(y2);
    assert(y5 == x5.neg_spec());
    assert(c1.mul_spec(y3) == c1.mul_spec(x3).neg_spec());
    assert(c3.mul_spec(y5) == c3.mul_spec(x5).neg_spec());
    assert(y.add_spec(c1.mul_spec(y3)) == x.add_spec(c1.mul_spec(x3)).neg_spec());
}

/// The shape of the saturator is odd where negation commutes with the
/// operators.
pub proof fn lemma_shape_is_odd<V: SimdType>(shape: Saturator<V>, x: V, out: V)
    requires
        negation_commutes::<V>(),
        is_shaped(shape, x.neg_spec(), out),
    ensures
        is_shaped(shape, x, out.neg_spec()),
{
    lemma_polynomial_is_odd(shape.c1, shape.c3, x);
    let a = saturator_polynomial(shape.c1, shape.c3, x);
    let b = saturator_polynomial(shape.c1, shape.c3, x.neg_spec());
    assert(b.mul_spec(b) == a.mul_spec(a)) by {
        assert(a.neg_spec().mul_spec(a.neg_spec()) == a.neg_spec().mul_spec(a).neg_spec());
        assert(a.neg_spec().mul_spec(a) == a.mul_spec(a).neg_spec());
    }
    let root = choose|root: V|
        call_ensures(V::sqrt, (shape.one.add_spec(b.mul_spec(b)),), root) && out == b.div_spec(
            root,
        );
    assert(out == a.div_spec(root).neg_spec());
    assert(out.neg_spec() == a.div_spec(root));
}

/// The saturator is odd: where negation commutes with the operators and with
/// the holding of a vector between the two limits, the negation of a
/// saturated `-x` is a saturated `x`.
pub proof fn lemma_saturate_is_odd<V: SimdType>(shape: Saturator<V>, x: V, out: V)
    requires
        negation_commutes::<V>(),
        clamp_is_odd(shape.lower, shape.upper),
        is_saturated(shape, x.neg_spec(), out),
    ensures
        is_saturated(shape, x, out.neg_spec()),
{
    let held = choose|held: V|
        call_ensures(V::simd_clamp, (x.neg_spec(), shape.lower, shape.upper), held) && is_shaped(
            shape,
            held,
            out,
        );
    assert(held.neg_spec().neg_spec() == held);
    lemma_shape_is_odd(shape, held.neg_spec(), out);
    assert(call_ensures(V::simd_clamp, (x, shape.lower, shape.upper), held.neg_spec()));
}

/// Saturating the negation gives the negation: where the lane-wise functions
/// give one result for one argument and negation commutes with them, the
/// saturated `-x` is the negation of the saturated `x`.
pub proof fn lemma_saturate_of_negation<V: SimdType>(
    shape: Saturator<V>,
    x: V,
    out: V,
    mirrored: V,
)
    requires
        negation_commutes::<V>(),
        clamp_is_odd(shape.lower, shape.upper),
        lanes_deterministic::<V>(),
        is_saturated(shape, x, out),
        is_saturated(shape, x.neg_spec(), mirrored),
    ensures
        mirrored == out.neg_spec(),
{
    lemma_saturate_is_odd(shape, x, mirrored);
    lemma_saturate_is_a_function(shape, x, out, mirrored.neg_spec());
    assert(mirrored.neg_spec().neg_spec() == mirrored);
}

/// Where the lane-wise functions give one result for one argument, so does
/// the saturator.
pub proof fn lemma_saturate_is_a_function<V: SimdType>(
    shape: Saturator<V>,
    x: V,
    out: V,
    other: V,
)
    requires
        lanes_deterministic::<V>(),
        is_saturated(shape, x, out),
        is_saturated(shape, x, other),
    ensures
        out == other,
{
}

} // verus!
