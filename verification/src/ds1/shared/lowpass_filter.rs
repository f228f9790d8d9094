//! A first-order lowpass by the bilinear transform, with a cutoff that is
//! given with every sample.
use crate::float_ext::{is_literal, operators_exact, operators_total, FloatExt};
use vstd::prelude::*;
use vstd::std_specs::ops::{AddSpec, DivSpec, MulSpec, SubSpec};

verus! {

/// The filter: its register and the constants of its formula.
pub struct LowpassFilter<T> {
    pub sample_rate: T,
    pub z: T,
    pub one: T,
    pub two: T,
    pub tau: T,
}

/// The angle whose tangent warps the cutoff: `frequency * 2 pi / (2 * sample_rate)`.
pub open spec fn warp_angle<T: FloatExt>(
    one: T,
    two: T,
    tau: T,
    sample_rate: T,
    frequency: T,
) -> T {
    frequency.mul_spec(tau).mul_spec(one.div_spec(two.mul_spec(sample_rate)))
}

/// The output of one sample for the warped cutoff `tangent * 2 * sample_rate`.
pub open spec fn lowpass_output<T: FloatExt>(filter: LowpassFilter<T>, input: T, tangent: T) -> T {
    let rate = filter.two.mul_spec(filter.sample_rate);
    let radians = tangent.mul_spec(rate);
    input.mul_spec(radians.div_spec(radians.add_spec(rate))).add_spec(filter.z)
}

/// The register after one sample with the output `y`.
pub open spec fn lowpass_register<T: FloatExt>(
    filter: LowpassFilter<T>,
    input: T,
    tangent: T,
    y: T,
) -> T {
    let rate = filter.two.mul_spec(filter.sample_rate);
    let radians = tangent.mul_spec(rate);
    let b0 = radians.add_spec(rate);
    input.mul_spec(radians.div_spec(b0)).sub_spec(radians.sub_spec(rate).div_spec(b0).mul_spec(y))
}

/// `out` is the output for one sample at the cutoff `frequency`, and `after`
/// the filter once it has been computed.
pub open spec fn is_lowpass_step<T: FloatExt>(
    before: LowpassFilter<T>,
    input: T,
    frequency: T,
    out: T,
    after: LowpassFilter<T>,
) -> bool {
    exists|tangent: T|
        {
            &&& #[trigger] call_ensures(
                T::tan,
                (warp_angle(before.one, before.two, before.tau, before.sample_rate, frequency),),
                tangent,
            )
            &&& out == lowpass_output(before, input, tangent)
            &&& after == (LowpassFilter {
                z: lowpass_register(before, input, tangent, out),
                ..before
            })
        }
}

/// `filter` is a filter at rest for `sample_rate`.
pub open spec fn is_new_lowpass<T: FloatExt>(sample_rate: T, filter: LowpassFilter<T>) -> bool {
    &&& filter.sample_rate == sample_rate
    &&& is_literal("0", filter.z)
    &&& is_literal("1", filter.one)
    &&& is_literal("2", filter.two)
    &&& is_literal("6.28318530717958647692528676655900577", filter.tau)
}

impl<T: FloatExt> LowpassFilter<T> {
    /// A filter at rest.
    pub fn new(sample_rate: T) -> (filter: Self)
        ensures
            is_new_lowpass(sample_rate, filter),
    {
        LowpassFilter {
            sample_rate,
            z: T::literal("0"),
            one: T::literal("1"),
            two: T::literal("2"),
            tau: T::literal("6.28318530717958647692528676655900577"),
        }
    }

    /// Filters one sample with the cutoff `frequency`.
    pub fn process(&mut self, input: T, frequency: T) -> (out: T)
        requires
            operators_total::<T>(),
        ensures
            operators_exact::<T>() ==> is_lowpass_step(
                *old(self),
                input,
                frequency,
                out,
                *final(self),
            ),
    {
        let double_sample_rate = self.two * self.sample_rate;
        let sample_period = self.one / double_sample_rate;
        let tangent = (frequency * self.tau * sample_period).tan();
        assert(operators_exact::<T>() ==> call_ensures(
            T::tan,
            (warp_angle(self.one, self.two, self.tau, self.sample_rate, frequency),),
            tangent,
        ));
        let radians = tangent * double_sample_rate;

        let b0 = radians + double_sample_rate;
        let b1 = (radians - double_sample_rate) / b0;
        let a0 = radians / b0;
        let a1 = radians / b0;

        let y = input * a0 + self.z;
        self.z = input * a1 - b1 * y;

        y
    }
}

} // verus!
