//! The three controls of the distortion, each behind a ramp smoother.
pub mod ramp_smooth;

use crate::float_ext::{is_literal, operators_exact, operators_total, FloatExt};
use crate::rat::smooth_parameters::ramp_smooth::{
    initialized, is_new_ramp_smooth, is_smoothed, RampSmooth,
};
use vstd::prelude::*;

verus! {

/// The smoothers of distortion, filter and volume.
pub struct SmoothParameters<T> {
    pub smooth_distortion: RampSmooth<T>,
    pub smooth_filter: RampSmooth<T>,
    pub smooth_volume: RampSmooth<T>,
}

impl<T: FloatExt> SmoothParameters<T> {
    /// Three smoothers at zero with ramps of a twentieth of a second.
    pub fn new(sample_rate: T) -> (smoothers: Self)
        requires
            operators_total::<T>(),
        ensures
            operators_exact::<T>() ==> exists|twenty: T|
                {
                    &&& is_literal("20", twenty)
                    &&& #[trigger] is_new_ramp_smooth(
                        sample_rate,
                        twenty,
                        smoothers.smooth_distortion,
                    )
                    &&& is_new_ramp_smooth(sample_rate, twenty, smoothers.smooth_filter)
                    &&& is_new_ramp_smooth(sample_rate, twenty, smoothers.smooth_volume)
                },
    {
        let twenty = T::literal("20");
        assert(is_literal("20", twenty));
        let smoothers = SmoothParameters {
            smooth_distortion: RampSmooth::new(sample_rate, twenty),
            smooth_filter: RampSmooth::new(sample_rate, twenty),
            smooth_volume: RampSmooth::new(sample_rate, twenty),
        };
        assert(operators_exact::<T>() ==> is_new_ramp_smooth(
            sample_rate,
            twenty,
            smoothers.smooth_distortion,
        ) && is_new_ramp_smooth(sample_rate, twenty, smoothers.smooth_filter)
            && is_new_ramp_smooth(sample_rate, twenty, smoothers.smooth_volume));
        smoothers
    }

    /// Sets the three values without a ramp.
    pub fn initialize(&mut self, distortion: T, filter: T, volume: T)
        ensures
            final(self).smooth_distortion == initialized(old(self).smooth_distortion, distortion),
            final(self).smooth_filter == initialized(old(self).smooth_filter, filter),
            final(self).smooth_volume == initialized(old(self).smooth_volume, volume),
    {
        self.smooth_distortion.initialize(distortion);
        self.smooth_filter.initialize(filter);
        self.smooth_volume.initialize(volume);
    }

    /// The three values for one sample.
    pub fn process(&mut self, distortion: T, filter: T, volume: T) -> (out: (T, T, T))
        requires
            operators_total::<T>(),
        ensures
            operators_exact::<T>() ==> {
                &&& is_smoothed(
                    old(self).smooth_distortion,
                    distortion,
                    out.0,
                    final(self).smooth_distortion,
                )
                &&& is_smoothed(old(self).smooth_filter, filter, out.1, final(self).smooth_filter)
                &&& is_smoothed(old(self).smooth_volume, volume, out.2, final(self).smooth_volume)
            },
    {
        (
            self.smooth_distortion.process(distortion),
            self.smooth_filter.process(filter),
            self.smooth_volume.process(volume),
        )
    }
}

} // verus!
