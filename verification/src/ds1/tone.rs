//! The tone control: a fixed lowpass and a fixed highpass, mixed by the
//! control.
pub mod highpass_filter;

use crate::ds1::shared::lowpass_filter::{is_lowpass_step, is_new_lowpass, LowpassFilter};
use crate::ds1::tone::highpass_filter::{is_highpass_step, is_new_highpass, HighpassFilter};
use crate::float_ext::{is_literal, operators_exact, operators_total, FloatExt};
use vstd::prelude::*;
use vstd::std_specs::ops::{AddSpec, MulSpec, SubSpec};

verus! {

/// The two filters, their cutoffs and the range of the mix.
pub struct Tone<T> {
    pub lowpass: LowpassFilter<T>,
    pub highpass: HighpassFilter<T>,
    pub one: T,
    pub lowpass_freq: T,
    pub lowpass_range: T,
    pub lowpass_floor: T,
    pub highpass_freq: T,
    pub highpass_range: T,
    pub highpass_floor: T,
}

/// The mix of the two filter outputs for a setting of the control:
/// `low * ((1 - tone) * range + floor) + high * (tone * range + floor)`,
/// each side with its own range and floor.
pub open spec fn tone_mix<T: FloatExt>(stage: Tone<T>, low: T, high: T, tone: T) -> T {
    low.mul_spec(
        stage.one.sub_spec(tone).mul_spec(stage.lowpass_range).add_spec(stage.lowpass_floor),
    ).add_spec(high.mul_spec(tone.mul_spec(stage.highpass_range).add_spec(stage.highpass_floor)))
}

/// `out` is the output of the stage for one sample, and `after` the stage once
/// it has been computed.
pub open spec fn is_tone_step<T: FloatExt>(
    before: Tone<T>,
    input: T,
    tone: T,
    out: T,
    after: Tone<T>,
) -> bool {
    exists|low: T, high: T|
        {
            &&& #[trigger] is_lowpass_step(
                before.lowpass,
                input,
                before.lowpass_freq,
                low,
                after.lowpass,
            )
            &&& #[trigger] is_highpass_step(
                before.highpass,
                input,
                before.highpass_freq,
                high,
                after.highpass,
            )
            &&& out == tone_mix(before, low, high, tone)
            &&& after == (Tone { lowpass: after.lowpass, highpass: after.highpass, ..before })
        }
}

/// `stage` is the stage at rest for `sample_rate`.
pub open spec fn is_new_tone<T: FloatExt>(sample_rate: T, stage: Tone<T>) -> bool {
    &&& is_new_lowpass(sample_rate, stage.lowpass)
    &&& is_new_highpass(sample_rate, stage.highpass)
    &&& is_literal("1", stage.one)
    &&& is_literal("234.05138689985", stage.lowpass_freq)
    &&& is_literal("0.595235", stage.lowpass_range)
    &&& is_literal("0.202379", stage.lowpass_floor)
    &&& is_literal("1063.8699404538", stage.highpass_freq)
    &&& is_literal("0.694642", stage.highpass_range)
    &&& is_literal("0.002896", stage.highpass_floor)
}

impl<T: FloatExt> Tone<T> {
    /// The stage at rest.
    pub fn new(sample_rate: T) -> (stage: Self)
        ensures
            is_new_tone(sample_rate, stage),
    {
        Tone {
            lowpass: LowpassFilter::new(sample_rate),
            highpass: HighpassFilter::new(sample_rate),
            one: T::literal("1"),
            lowpass_freq: T::literal("234.05138689985"),
            lowpass_range: T::literal("0.595235"),
            lowpass_floor: T::literal("0.202379"),
            highpass_freq: T::literal("1063.8699404538"),
            highpass_range: T::literal("0.694642"),
            highpass_floor: T::literal("0.002896"),
        }
    }

    /// One sample through the stage.
    pub fn process(&mut self, input: T, tone: T) -> (out: T)
        requires
            operators_total::<T>(),
        ensures
            operators_exact::<T>() ==> is_tone_step(*old(self), input, tone, out, *final(self)),
    {
        let low = self.lowpass.process(input, self.lowpass_freq);
        let lowpass_output = low * ((self.one - tone) * self.lowpass_range + self.lowpass_floor);
        let high = self.highpass.process(input, self.highpass_freq);
        let highpass_output = high * (tone * self.highpass_range + self.highpass_floor);

        lowpass_output + highpass_output
    }
}

} // verus!
