//! A one-shot ramp that drives the crossfade between two tap settings.
use crate::float_ext::{is_ge, is_literal, operators_exact, operators_total, FloatExt};
use vstd::prelude::*;
use vstd::std_specs::ops::{AddSpec, DivSpec};

verus! {

/// A value that, once started, rises by `freq / sample_rate` per sample until
/// it reaches its maximum, and is then finished.
pub struct Ramp<T> {
    pub sample_rate: T,
    pub x: T,
    pub initial: Option<T>,
    pub trigger: bool,
    pub is_active: bool,
}

/// The value a ramp takes on the first sample after a start.
pub open spec fn ramp_origin<T>(initial: Option<T>, min: T) -> T {
    match initial {
        Some(value) => value,
        None => min,
    }
}

/// The state of `ramp` after one sample at `freq` between `min` and `max`.
pub open spec fn ramp_next<T: FloatExt>(ramp: Ramp<T>, freq: T, min: T, max: T) -> Ramp<T> {
    if !ramp.is_active {
        ramp
    } else {
        let moved = if ramp.trigger {
            ramp_origin(ramp.initial, min)
        } else {
            ramp.x.add_spec(freq.div_spec(ramp.sample_rate))
        };
        let arrived = is_ge(moved, max);
        Ramp {
            sample_rate: ramp.sample_rate,
            x: if arrived { max } else { moved },
            initial: ramp.initial,
            trigger: false,
            is_active: !arrived,
        }
    }
}

/// `ramp` is a finished ramp resting at zero.
pub open spec fn is_new_ramp<T: FloatExt>(sample_rate: T, ramp: Ramp<T>) -> bool {
    &&& ramp.sample_rate == sample_rate
    &&& is_literal("0", ramp.x)
    &&& ramp.initial.is_none()
    &&& !ramp.trigger
    &&& !ramp.is_active
}

impl<T: FloatExt> Ramp<T> {
    /// A finished ramp resting at zero.
    pub fn new(sample_rate: T) -> (ramp: Self)
        ensures
            is_new_ramp(sample_rate, ramp),
    {
        Ramp { sample_rate, x: T::literal("0"), initial: None, trigger: false, is_active: false }
    }

    /// Arms the ramp: the next sample starts it at `initial_value`, or at the
    /// minimum of the run where none is given.
    pub fn start(&mut self, initial_value: Option<T>)
        ensures
            *final(self) == (Ramp {
                initial: initial_value,
                trigger: true,
                is_active: true,
                ..*old(self)
            }),
    {
        self.initial = initial_value;
        self.trigger = true;
        self.is_active = true;
    }

    /// Whether the ramp is at rest.
    pub fn is_finished(&self) -> (finished: bool)
        ensures
            finished == !self.is_active,
    {
        !self.is_active
    }

    /// Advances the ramp by one sample and returns its value.
    pub fn run(&mut self, freq: T, min: T, max: T) -> (value: T)
        requires
            operators_total::<T>(),
        ensures
            operators_exact::<T>() ==> *final(self) == ramp_next(*old(self), freq, min, max),
            value == final(self).x,
            !old(self).is_active ==> *final(self) == *old(self),
            !final(self).trigger || !old(self).is_active,
            final(self).is_active ==> old(self).is_active,
            final(self).sample_rate == old(self).sample_rate,
    {
        if self.is_active {
            if self.trigger {
                self.x = match self.initial {
                    Some(value) => value,
                    None => min,
                };
                self.trigger = false;
            } else {
                self.x = self.x + freq / self.sample_rate;
            }
            if self.x >= max {
                self.x = max;
                self.is_active = false;
            }
        }
        self.x
    }
}

/// A ramp that has been started takes its origin on the next sample, and is
/// still under way unless the origin is already at the maximum.
pub proof fn lemma_started_ramp_begins_at_origin<T: FloatExt>(
    ramp: Ramp<T>,
    initial: Option<T>,
    freq: T,
    min: T,
    max: T,
)
    ensures
        ({
            let started = Ramp { initial, trigger: true, is_active: true, ..ramp };
            let next = ramp_next(started, freq, min, max);
            &&& !is_ge(ramp_origin(initial, min), max) ==> next.x == ramp_origin(initial, min)
                && next.is_active
            &&& is_ge(ramp_origin(initial, min), max) ==> next.x == max && !next.is_active
            &&& !next.trigger
        }),
{
}

/// A ramp at rest stays at rest and keeps its value.
pub proof fn lemma_finished_ramp_rests<T: FloatExt>(ramp: Ramp<T>, freq: T, min: T, max: T)
    requires
        !ramp.is_active,
    ensures
        ramp_next(ramp, freq, min, max) == ramp,
{
}

} // verus!
