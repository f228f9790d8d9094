//! The input booster: a second-order highpass with gain, by the bilinear
//! transform of two corner frequencies.
use crate::float_ext::{is_literal, operators_exact, operators_total, FloatExt};
use vstd::prelude::*;
use vstd::std_specs::ops::{AddSpec, DivSpec, MulSpec, SubSpec};

verus! {

/// The two registers and the constants of the stage.
pub struct TransistorBooster<T> {
    pub z1: T,
    pub z2: T,
    pub sample_rate: T,
    pub one: T,
    pub two: T,
    pub minus_two: T,
    pub tau: T,
    pub freq1: T,
    pub freq2: T,
}

/// The coefficients of one sample for the tangents of the two warped
/// corners, in the order `a0`, `a1`, `a2`, `b1`, `b2`.
pub open spec fn booster_coefficients<T: FloatExt>(
    stage: TransistorBooster<T>,
    tangent1: T,
    tangent2: T,
    gain: T,
) -> (T, T, T, T, T) {
    let rate = stage.two.mul_spec(stage.sample_rate);
    let radians1 = tangent1.mul_spec(rate);
    let radians2 = tangent2.mul_spec(rate);
    let a = radians1.add_spec(rate);
    let b = radians1.sub_spec(rate);
    let c = radians2.add_spec(rate);
    let d = radians2.sub_spec(rate);
    let b0 = a.mul_spec(c);
    let a0 = rate.mul_spec(rate).div_spec(b0).mul_spec(gain);
    (
        a0,
        a0.mul_spec(stage.minus_two),
        a0,
        a.mul_spec(d).add_spec(b.mul_spec(c)).div_spec(b0),
        b.mul_spec(d).div_spec(b0),
    )
}

/// The angle whose tangent warps a corner: `freq * 2 pi / (2 * sample_rate)`.
pub open spec fn corner_angle<T: FloatExt>(stage: TransistorBooster<T>, freq: T) -> T {
    freq.mul_spec(stage.tau).mul_spec(stage.one.div_spec(stage.two.mul_spec(stage.sample_rate)))
}

/// `out` is the output of the stage for one sample at `gain`, and `after` the
/// stage once it has been computed: a second-order section in transposed
/// direct form with the coefficients of that sample.
pub open spec fn is_booster_step<T: FloatExt>(
    before: TransistorBooster<T>,
    input: T,
    gain: T,
    out: T,
    after: TransistorBooster<T>,
) -> bool {
    exists|tangent1: T, tangent2: T|
        {
            &&& #[trigger] call_ensures(T::tan, (corner_angle(before, before.freq1),), tangent1)
            &&& #[trigger] call_ensures(T::tan, (corner_angle(before, before.freq2),), tangent2)
            &&& {
                let (a0, a1, a2, b1, b2) = booster_coefficients(before, tangent1, tangent2, gain);
                &&& out == input.mul_spec(a0).add_spec(before.z1)
                &&& after == (TransistorBooster {
                    z1: input.mul_spec(a1).add_spec(before.z2).sub_spec(b1.mul_spec(out)),
                    z2: input.mul_spec(a2).sub_spec(b2.mul_spec(out)),
                    ..before
                })
            }
        }
}

/// `stage` is the stage at rest for `sample_rate`.
pub open spec fn is_new_booster<T: FloatExt>(
    sample_rate: T,
    stage: TransistorBooster<T>,
) -> bool {
    &&& stage.sample_rate == sample_rate
    &&& is_literal("0", stage.z1)
    &&& stage.z2 == stage.z1
    &&& is_literal("1", stage.one)
    &&& is_literal("2", stage.two)
    &&& is_literal("-2", stage.minus_two)
    &&& is_literal("6.28318530717958647692528676655900577", stage.tau)
    &&& is_literal("3.077643", stage.freq1)
    &&& is_literal("703.162476", stage.freq2)
}

impl<T: FloatExt> TransistorBooster<T> {
    /// The stage at rest.
    pub fn new(sample_rate: T) -> (stage: Self)
        ensures
            is_new_booster(sample_rate, stage),
    {
        let zero = T::literal("0");
        TransistorBooster {
            z1: zero,
            z2: zero,
            sample_rate,
            one: T::literal("1"),
            two: T::literal("2"),
            minus_two: T::literal("-2"),
            tau: T::literal("6.28318530717958647692528676655900577"),
            freq1: T::literal("3.077643"),
            freq2: T::literal("703.162476"),
        }
    }

    /// One sample through the stage at `gain`.
    pub fn process(&mut self, input: T, gain: T) -> (out: T)
        requires
            operators_total::<T>(),
        ensures
            operators_exact::<T>() ==> is_booster_step(*old(self), input, gain, out, *final(self)),
    {
        let double_sample_rate = self.two * self.sample_rate;
        let sample_period = self.one / double_sample_rate;

        let tangent1 = (self.freq1 * self.tau * sample_period).tan();
        let tangent2 = (self.freq2 * self.tau * sample_period).tan();
        assert(operators_exact::<T>() ==> call_ensures(
            T::tan,
            (corner_angle(*self, self.freq1),),
            tangent1,
        ) && call_ensures(T::tan, (corner_angle(*self, self.freq2),), tangent2));
        let radians1 = tangent1 * double_sample_rate;
        let radians2 = tangent2 * double_sample_rate;

        let a = radians1 + double_sample_rate;
        let b = radians1 - double_sample_rate;
        let c = radians2 + double_sample_rate;
        let d = radians2 - double_sample_rate;

        let b0 = a * c;
        let b1 = (a * d + b * c) / b0;
        let b2 = b * d / b0;
        let a0 = double_sample_rate * double_sample_rate / b0 * gain;
        let a1 = a0 * self.minus_two;
        let a2 = a0;

        let y = input * a0 + self.z1;
        self.z1 = input * a1 + self.z2 - b1 * y;
        self.z2 = input * a2 - b2 * y;

        y
    }
}

} // verus!
