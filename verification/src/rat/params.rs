//! The controls of the distortion as the engine reads them: each control is
//! shaped by a cube and smoothed.
pub mod smooth;

use crate::float_ext::{is_literal, operators_exact, operators_total, FloatExt};
use crate::rat::params::smooth::{is_new_linear_smooth, retargeted, LinearSmooth};
use vstd::prelude::*;
use vstd::std_specs::ops::MulSpec;

verus! {

/// The smoothers of the three controls. Until the controls have been set
/// once, the smoothers rest at zero.
pub struct Params<T> {
    pub distortion: LinearSmooth<T>,
    pub filter: LinearSmooth<T>,
    pub volume: LinearSmooth<T>,
    pub is_initialized: bool,
}

/// A control value shaped by a cube.
pub open spec fn cubed<T: FloatExt>(x: T) -> T {
    x.mul_spec(x).mul_spec(x)
}

/// One smoother after a control has been set to `value`: the first setting is
/// taken over at once, every later one is ramped to.
pub open spec fn smoother_set<T: FloatExt>(
    before: LinearSmooth<T>,
    value: T,
    is_initialized: bool,
) -> LinearSmooth<T> {
    if is_initialized {
        retargeted(before, value)
    } else {
        LinearSmooth { current: value, target: value, steps_left: 0, ..before }
    }
}

impl<T: FloatExt> Params<T> {
    /// Controls that have not been set, with ramps of a twentieth of a second.
    pub fn new(sample_rate: T) -> (params: Self)
        requires
            operators_total::<T>(),
        ensures
            !params.is_initialized,
            operators_exact::<T>() ==> exists|twenty: T|
                {
                    &&& is_literal("20", twenty)
                    &&& #[trigger] is_new_linear_smooth(sample_rate, twenty, params.distortion)
                    &&& is_new_linear_smooth(sample_rate, twenty, params.filter)
                    &&& is_new_linear_smooth(sample_rate, twenty, params.volume)
                },
    {
        let twenty = T::literal("20");
        assert(is_literal("20", twenty));
        let params = Params {
            distortion: LinearSmooth::new(sample_rate, twenty),
            filter: LinearSmooth::new(sample_rate, twenty),
            volume: LinearSmooth::new(sample_rate, twenty),
            is_initialized: false,
        };
        assert(operators_exact::<T>() ==> is_new_linear_smooth(
            sample_rate,
            twenty,
            params.distortion,
        ) && is_new_linear_smooth(sample_rate, twenty, params.filter) && is_new_linear_smooth(
            sample_rate,
            twenty,
            params.volume,
        ));
        params
    }

    /// Sets the three controls.
    pub fn set(&mut self, distortion: T, filter: T, volume: T)
        requires
            operators_total::<T>(),
        ensures
            final(self).is_initialized,
            operators_exact::<T>() ==> {
                &&& final(self).distortion == smoother_set(
                    old(self).distortion,
                    cubed(distortion),
                    old(self).is_initialized,
                )
                &&& final(self).filter == smoother_set(
                    old(self).filter,
                    cubed(filter),
                    old(self).is_initialized,
                )
                &&& final(self).volume == smoother_set(
                    old(self).volume,
                    cubed(volume),
                    old(self).is_initialized,
                )
            },
    {
        let distortion = distortion * distortion * distortion;
        let filter = filter * filter * filter;
        let volume = volume * volume * volume;

        if self.is_initialized {
            self.distortion.set_target(distortion);
            self.filter.set_target(filter);
            self.volume.set_target(volume);
        } else {
            self.distortion.reset(distortion);
            self.filter.reset(filter);
            self.volume.reset(volume);
            self.is_initialized = true;
        }
    }
}

} // verus!
