//! The tone control: a lowpass whose cutoff follows the control.
use crate::float_ext::{is_literal, operators_exact, operators_total, FloatExt};
use crate::rat::shared::one_pole_filter::{is_new_one_pole, is_one_pole_step, OnePoleFilter};
use vstd::prelude::*;
use vstd::std_specs::ops::{AddSpec, DivSpec, MulSpec};

verus! {

/// The lowpass and the constants of the network.
pub struct Tone<T> {
    pub lowpass: OnePoleFilter<T>,
    pub r1: T,
    pub r2: T,
    pub c1: T,
    pub tau: T,
    pub one: T,
}

/// The cutoff for a setting of the control: `1 / (2 pi * (tone * r1 + r2) * c1)`.
pub open spec fn tone_cutoff<T: FloatExt>(stage: Tone<T>, tone: T) -> T {
    stage.one.div_spec(
        stage.tau.mul_spec(tone.mul_spec(stage.r1).add_spec(stage.r2)).mul_spec(stage.c1),
    )
}

/// `out` is the output of the stage for one sample, and `after` the stage once
/// it has been computed.
pub open spec fn is_tone_step<T: FloatExt>(
    before: Tone<T>,
    input: T,
    tone: T,
    out: T,
    after: Tone<T>,
) -> bool {
    &&& is_one_pole_step(before.lowpass, input, tone_cutoff(before, tone), after.lowpass)
    &&& out == after.lowpass.z
    &&& after == (Tone { lowpass: after.lowpass, ..before })
}

/// `stage` is the stage at rest for `sample_rate`.
pub open spec fn is_new_tone<T: FloatExt>(sample_rate: T, stage: Tone<T>) -> bool {
    &&& is_new_one_pole(sample_rate, stage.lowpass)
    &&& is_literal("100000", stage.r1)
    &&& is_literal("1500", stage.r2)
    &&& is_literal("3.3e-9", stage.c1)
    &&& is_literal("6.28318530717958647692528676655900577", stage.tau)
    &&& is_literal("1", stage.one)
}

impl<T: FloatExt> Tone<T> {
    /// The lowpass is consistent.
    pub open spec fn wf(&self) -> bool {
        self.lowpass.wf()
    }

    /// The stage at rest.
    pub fn new(sample_rate: T) -> (stage: Self)
        requires
            operators_total::<T>(),
        ensures
            stage.wf(),
            operators_exact::<T>() ==> is_new_tone(sample_rate, stage),
    {
        Tone {
            lowpass: OnePoleFilter::new(sample_rate),
            r1: T::literal("100000"),
            r2: T::literal("1500"),
            c1: T::literal("3.3e-9"),
            tau: T::literal("6.28318530717958647692528676655900577"),
            one: T::literal("1"),
        }
    }

    /// One sample through the lowpass at the cutoff for `tone`.
    pub fn process(&mut self, input: T, tone: T) -> (out: T)
        requires
            old(self).wf(),
            operators_total::<T>(),
        ensures
            final(self).wf(),
            operators_exact::<T>() ==> is_tone_step(*old(self), input, tone, out, *final(self)),
    {
        let cutoff_freq = self.get_cutoff_frequency(tone);
        self.lowpass.process(input, cutoff_freq)
    }

    /// The cutoff for a setting of the control.
    pub fn get_cutoff_frequency(&self, tone: T) -> (cutoff: T)
        requires
            operators_total::<T>(),
        ensures
            operators_exact::<T>() ==> cutoff == tone_cutoff(*self, tone),
    {
        let resistor = tone * self.r1 + self.r2;
        self.one / (self.tau * resistor * self.c1)
    }
}

} // verus!
