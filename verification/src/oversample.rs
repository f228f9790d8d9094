//! Oversampling: a nonlinear stage is run on a vector of sub-samples between an
//! interpolating and a decimating filter.
pub mod fir_filter;
pub mod slew_fir_filter;

use crate::float_ext::{operators_exact, operators_total, FloatExt};
use crate::oversample::fir_filter::{FirFilter, SimdFir};
use crate::oversample::slew_fir_filter::SlewFirFilter;
use crate::simd_type::{dot, is_splat_literal, lanes_exact, lanes_total, SimdType};
use vstd::arithmetic::power2::is_pow2;
use vstd::prelude::*;
use vstd::std_specs::ops::MulSpec;

verus! {

/// The oversampler: one vector lane per sub-sample.
pub struct Oversample<T: SimdType> {
    pub upsample_fir: SlewFirFilter<T>,
    pub downsample_fir: FirFilter<T>,
    pub oversample_factor: usize,
    pub factor: T::Scalar,
    pub gain: T::Scalar,
}

/// The number of vectors in each of the two coefficient tables.
pub const FIR_LENGTH: usize = 16;

/// `oversample` is an oversampler over the two coefficient tables and the gain
/// that makes up for the loss in their passband, with silence in both filters.
pub open spec fn is_new_oversample<T: SimdType>(
    upsample_coefficients: Seq<T>,
    downsample_coefficients: Seq<T>,
    gain: T::Scalar,
    oversample: Oversample<T>,
) -> bool {
    &&& oversample.wf()
    &&& oversample.gain == gain
    &&& call_ensures(T::oversample_factor, (), oversample.oversample_factor)
    &&& call_ensures(T::Scalar::from_usize, (oversample.oversample_factor,), oversample.factor)
    &&& oversample.upsample_fir.coefficients() == upsample_coefficients
    &&& oversample.downsample_fir.coefficients() == downsample_coefficients
    &&& oversample.upsample_fir.window().len() == upsample_coefficients.len()
    &&& oversample.downsample_fir.window().len() == downsample_coefficients.len()
    &&& forall|i: int|
        0 <= i < upsample_coefficients.len() ==> oversample.upsample_fir.window()[i]
            == oversample.upsample_fir.zero()
    &&& forall|i: int|
        0 <= i < downsample_coefficients.len() ==> oversample.downsample_fir.window()[i]
            == oversample.downsample_fir.zero()
    &&& is_splat_literal("0", oversample.upsample_fir.zero())
    &&& is_splat_literal("0", oversample.downsample_fir.zero())
}

impl<T: SimdType> Oversample<T> {
    /// Both filters are usable.
    pub open spec fn wf(&self) -> bool {
        &&& self.upsample_fir.wf()
        &&& self.downsample_fir.wf()
    }

    /// An oversampler over the two coefficient tables, each sixteen vectors
    /// long, with silence in both filters.
    pub fn new(
        upsample_coefficients: Vec<T>,
        downsample_coefficients: Vec<T>,
        gain: T::Scalar,
    ) -> (oversample: Self)
        requires
            upsample_coefficients.len() == FIR_LENGTH,
            downsample_coefficients.len() == FIR_LENGTH,
        ensures
            is_new_oversample(upsample_coefficients@, downsample_coefficients@, gain, oversample),
            oversample.upsample_fir.window().len() == FIR_LENGTH,
            oversample.downsample_fir.window().len() == FIR_LENGTH,
    {
        proof {
            lemma_sixteen_is_a_power_of_two();
        }
        let oversample_factor = T::oversample_factor();
        Oversample {
            upsample_fir: SlewFirFilter::new(upsample_coefficients),
            downsample_fir: FirFilter::new(downsample_coefficients),
            oversample_factor,
            factor: T::Scalar::from_usize(oversample_factor),
            gain,
        }
    }

    /// One sample through the nonlinear stage `callback` at the oversampled
    /// rate: `input` is upsampled, `callback` is applied once to the vector of
    /// sub-samples, and the result is downsampled and leaves at the gain of
    /// the oversampler.
    pub fn process<F>(&mut self, input: T::Scalar, callback: F) -> (out: T::Scalar) where
        F: Fn(T) -> T,

        requires
            old(self).wf(),
            operators_total::<T::Scalar>(),
            lanes_total::<T>(),
            forall|x: T| call_requires(callback, (x,)),
        ensures
            final(self).wf(),
            final(self).oversample_factor == old(self).oversample_factor,
            final(self).factor == old(self).factor,
            final(self).gain == old(self).gain,
            operators_exact::<T::Scalar>() && lanes_exact::<T>() ==> exists|shaped: T|
                {
                    &&& call_ensures(callback, (upsampled(*final(self)),), shaped)
                    &&& #[trigger] is_oversample_step(*old(self), input, shaped, out, *final(self))
                },
    {
        let upsampled = self.upsample(input);
        let ghost interpolated = *self;
        let processed = self.run_upsampled_process(upsampled, callback);
        let summed = self.downsample(processed);
        let out = summed * self.gain;
        proof {
            if operators_exact::<T::Scalar>() && lanes_exact::<T>() {
                let spread = choose|spread: T| is_upsampled(*old(self), input, spread, interpolated);
                assert(is_upsampled(*old(self), input, spread, *self));
                assert(is_downsampled(*old(self), processed, summed, *self));
                assert(is_scaled(*old(self), processed, out, *self));
                assert(is_oversample_step(*old(self), input, processed, out, *self));
            }
        }
        out
    }

    /// Spreads `input`, scaled by the oversampling factor, over the lanes and
    /// interpolates.
    pub fn upsample(&mut self, input: T::Scalar) -> (out: T)
        requires
            old(self).wf(),
            operators_total::<T::Scalar>(),
            lanes_total::<T>(),
        ensures
            final(self).wf(),
            final(self).downsample_fir == old(self).downsample_fir,
            final(self).oversample_factor == old(self).oversample_factor,
            final(self).factor == old(self).factor,
            final(self).gain == old(self).gain,
            operators_exact::<T::Scalar>() ==> exists|spread: T| #[trigger]
                is_upsampled(*old(self), input, spread, *final(self)),
            lanes_exact::<T>() ==> out == upsampled(*final(self)),
    {
        let spread = T::splat(input * self.factor);
        let out = self.upsample_fir.process(spread);
        proof {
            if operators_exact::<T::Scalar>() {
                assert(is_upsampled(*old(self), input, spread, *self));
            }
        }
        out
    }

    /// Applies the nonlinear stage to one vector of sub-samples.
    pub fn run_upsampled_process<F>(&mut self, input: T, callback: F) -> (out: T) where
        F: Fn(T) -> T,

        requires
            call_requires(callback, (input,)),
        ensures
            call_ensures(callback, (input,), out),
            *final(self) == *old(self),
    {
        callback(input)
    }

    /// Decimates one vector of sub-samples and sums the lanes.
    pub fn downsample(&mut self, input: T) -> (out: T::Scalar)
        requires
            old(self).wf(),
            lanes_total::<T>(),
        ensures
            final(self).wf(),
            final(self).upsample_fir == old(self).upsample_fir,
            final(self).oversample_factor == old(self).oversample_factor,
            final(self).factor == old(self).factor,
            final(self).gain == old(self).gain,
            lanes_exact::<T>() ==> is_downsampled(*old(self), input, out, *final(self)),
    {
        self.downsample_fir.process(input).reduce_sum()
    }
}

/// The vector of sub-samples that the nonlinear stage is applied to: the sum of
/// the interpolating filter's window times its table.
pub open spec fn upsampled<T: SimdType>(oversample: Oversample<T>) -> T {
    dot(
        oversample.upsample_fir.window(),
        oversample.upsample_fir.coefficients(),
        oversample.upsample_fir.zero(),
    )
}

/// `out` is the lane sum of the decimating filter for `shaped` at the gain of
/// the oversampler.
pub open spec fn is_scaled<T: SimdType>(
    before: Oversample<T>,
    shaped: T,
    out: T::Scalar,
    after: Oversample<T>,
) -> bool {
    exists|summed: T::Scalar| #[trigger]
        is_downsampled(before, shaped, summed, after) && out == summed.mul_spec(before.gain)
}

/// `out` is the output of the oversampler for one sample whose sub-samples the
/// nonlinear stage has turned into `shaped`, and `after` the oversampler once
/// it has been computed.
pub open spec fn is_oversample_step<T: SimdType>(
    before: Oversample<T>,
    input: T::Scalar,
    shaped: T,
    out: T::Scalar,
    after: Oversample<T>,
) -> bool {
    &&& exists|spread: T| #[trigger] is_upsampled(before, input, spread, after)
    &&& is_scaled(before, shaped, out, after)
}

/// Sixteen is a power of two.
pub proof fn lemma_sixteen_is_a_power_of_two()
    ensures
        is_pow2(FIR_LENGTH as int),
{
    reveal_with_fuel(is_pow2, 5);
}

/// `after` is the oversampler once `input` has been upsampled: `spread`, a
/// vector that `splat` gave for the input times the oversampling factor, is
/// the newest vector of the interpolating filter.
pub open spec fn is_upsampled<T: SimdType>(
    before: Oversample<T>,
    input: T::Scalar,
    spread: T,
    after: Oversample<T>,
) -> bool {
    &&& call_ensures(T::splat, (input.mul_spec(before.factor),), spread)
    &&& after.upsample_fir.window() == before.upsample_fir.window().drop_first().push(spread)
    &&& after.upsample_fir.coefficients() == before.upsample_fir.coefficients()
    &&& after.upsample_fir.zero() == before.upsample_fir.zero()
}

/// `after` is the oversampler once `input` has been downsampled to `out`:
/// `input` is the newest vector of the decimating filter, and `out` a value
/// that `reduce_sum` gave for the sum of that filter's window times its table.
pub open spec fn is_downsampled<T: SimdType>(
    before: Oversample<T>,
    input: T,
    out: T::Scalar,
    after: Oversample<T>,
) -> bool {
    &&& after.downsample_fir.window() == before.downsample_fir.window().drop_first().push(input)
    &&& after.downsample_fir.coefficients() == before.downsample_fir.coefficients()
    &&& after.downsample_fir.zero() == before.downsample_fir.zero()
    &&& call_ensures(
        T::reduce_sum,
        (
            dot(
                after.downsample_fir.window(),
                after.downsample_fir.coefficients(),
                after.downsample_fir.zero(),
            ),
        ),
        out,
    )
}

} // verus!
