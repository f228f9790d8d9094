//! The bandwidth of the op-amp: a lowpass whose cutoff falls as the gain of
//! the stage rises.
use crate::float_ext::{is_literal, operators_exact, operators_total, FloatExt};
use crate::rat::shared::one_pole_filter::{is_new_one_pole, is_one_pole_step, OnePoleFilter};
use vstd::prelude::*;
use vstd::std_specs::ops::{AddSpec, DivSpec, MulSpec, SubSpec};

verus! {

/// The lowpass and the constants of the gain model.
pub struct OpAmpCorrection<T> {
    pub filter: OnePoleFilter<T>,
    pub max_db_at_one_hz: T,
    pub decrease_per_decade: T,
    pub one: T,
    pub ten: T,
    pub twenty: T,
    pub r1: T,
    pub r2: T,
    pub r3: T,
}

/// The gain of the stage: `1 + distortion * r1 / (r2 * r3 / (r2 + r3))`.
pub open spec fn stage_gain<T: FloatExt>(correction: OpAmpCorrection<T>, distortion: T) -> T {
    correction.one.add_spec(
        distortion.mul_spec(correction.r1).div_spec(
            correction.r2.mul_spec(correction.r3).div_spec(
                correction.r2.add_spec(correction.r3),
            ),
        ),
    )
}

/// `db` is an amplitude in decibels: twenty times a value that `log10` gave.
pub open spec fn is_atodb<T: FloatExt>(twenty: T, amplitude: T, db: T) -> bool {
    exists|log: T| #[trigger] call_ensures(T::log10, (amplitude,), log) && db == twenty.mul_spec(log)
}

/// `cutoff` is the cutoff for `distortion`: ten to the power of the decades
/// that the gain in decibels leaves below the gain at one hertz.
pub open spec fn is_correction_cutoff<T: FloatExt>(
    correction: OpAmpCorrection<T>,
    distortion: T,
    cutoff: T,
) -> bool {
    exists|db: T|
        {
            &&& is_atodb(correction.twenty, stage_gain(correction, distortion), db)
            &&& call_ensures(
                T::powf,
                (
                    correction.ten,
                    correction.max_db_at_one_hz.sub_spec(db).div_spec(
                        correction.decrease_per_decade,
                    ),
                ),
                cutoff,
            )
        }
}

/// `correction` is the correction at rest for `sample_rate`.
pub open spec fn is_new_correction<T: FloatExt>(
    sample_rate: T,
    correction: OpAmpCorrection<T>,
) -> bool {
    &&& is_new_one_pole(sample_rate, correction.filter)
    &&& is_literal("120.9794", correction.max_db_at_one_hz)
    &&& is_literal("20", correction.decrease_per_decade)
    &&& is_literal("1", correction.one)
    &&& is_literal("10", correction.ten)
    &&& is_literal("20", correction.twenty)
    &&& is_literal("100000", correction.r1)
    &&& is_literal("560", correction.r2)
    &&& is_literal("47", correction.r3)
}

impl<T: FloatExt> OpAmpCorrection<T> {
    /// The lowpass is consistent.
    pub open spec fn wf(&self) -> bool {
        self.filter.wf()
    }

    /// The correction at rest.
    pub fn new(sample_rate: T) -> (correction: Self)
        requires
            operators_total::<T>(),
        ensures
            correction.wf(),
            operators_exact::<T>() ==> is_new_correction(sample_rate, correction),
    {
        OpAmpCorrection {
            filter: OnePoleFilter::new(sample_rate),
            max_db_at_one_hz: T::literal("120.9794"),
            decrease_per_decade: T::literal("20"),
            one: T::literal("1"),
            ten: T::literal("10"),
            twenty: T::literal("20"),
            r1: T::literal("100000"),
            r2: T::literal("560"),
            r3: T::literal("47"),
        }
    }

    /// An amplitude in decibels.
    pub fn atodb(&self, amplitude: T) -> (db: T)
        requires
            operators_total::<T>(),
        ensures
            operators_exact::<T>() ==> is_atodb(self.twenty, amplitude, db),
    {
        self.twenty * amplitude.log10()
    }

    /// The gain of the stage in decibels.
    pub fn get_db_gain(&self, distortion: T) -> (db: T)
        requires
            operators_total::<T>(),
        ensures
            operators_exact::<T>() ==> is_atodb(self.twenty, stage_gain(*self, distortion), db),
    {
        let r1 = distortion * self.r1;
        let gain = self.one + r1 / (self.r2 * self.r3 / (self.r2 + self.r3));
        self.atodb(gain)
    }

    /// The cutoff of the lowpass for `distortion`.
    pub fn get_cutoff_frequency(&self, distortion: T) -> (cutoff: T)
        requires
            operators_total::<T>(),
        ensures
            operators_exact::<T>() ==> is_correction_cutoff(*self, distortion, cutoff),
    {
        let db_gain = self.get_db_gain(distortion);
        let decade_fraction = (self.max_db_at_one_hz - db_gain) / self.decrease_per_decade;
        self.ten.powf(decade_fraction)
    }

    /// One sample through the lowpass at the cutoff for `distortion`.
    pub fn process(&mut self, input: T, distortion: T) -> (out: T)
        requires
            old(self).wf(),
            operators_total::<T>(),
        ensures
            final(self).wf(),
            operators_exact::<T>() ==> exists|cutoff: T|
                {
                    &&& is_correction_cutoff(*old(self), distortion, cutoff)
                    &&& #[trigger] is_one_pole_step(
                        old(self).filter,
                        input,
                        cutoff,
                        final(self).filter,
                    )
                },
            *final(self) == (OpAmpCorrection { filter: final(self).filter, ..*old(self) }),
            out == final(self).filter.z,
    {
        let cutoff_frequency = self.get_cutoff_frequency(distortion);
        self.filter.process(input, cutoff_frequency)
    }
}

} // verus!
