//! A control smoother with a target that is set apart from the samples: a
//! linear ramp of a fixed number of samples toward the target set last.
use crate::float_ext::{
    is_literal, mstosamps, mstosamps_spec, operators_exact, operators_total, FloatExt,
};
use vstd::prelude::*;
use vstd::std_specs::cmp::PartialEqSpec;
use vstd::std_specs::ops::{AddSpec, DivSpec, MulSpec, SubSpec};

verus! {

/// The smoother: its value, its target, the step of the ramp under way and the
/// samples that ramp has left; and the length of a ramp, as a count and as a
/// scalar.
pub struct LinearSmooth<T> {
    pub current: T,
    pub target: T,
    pub step_size: T,
    pub steps_left: usize,
    pub ramp_time: usize,
    pub ramp_time_in_samples: T,
}

/// The smoother after a target has been set: a target that differs from the
/// one before starts a ramp of `ramp_time` samples with the step
/// `(target - current) / ramp_time_in_samples`.
pub open spec fn retargeted<T: FloatExt>(before: LinearSmooth<T>, target: T) -> LinearSmooth<T> {
    if target.eq_spec(&before.target) {
        before
    } else {
        LinearSmooth {
            target,
            step_size: target.sub_spec(before.current).div_spec(before.ramp_time_in_samples),
            steps_left: before.ramp_time,
            ..before
        }
    }
}

/// The smoother after one sample: while the ramp has samples left, it loses
/// one and the value moves by the step.
pub open spec fn advanced<T: FloatExt>(before: LinearSmooth<T>) -> LinearSmooth<T> {
    if before.steps_left > 0 {
        LinearSmooth {
            steps_left: (before.steps_left - 1) as usize,
            current: before.current.add_spec(before.step_size),
            ..before
        }
    } else {
        before
    }
}

/// The smoother after `n` samples.
pub open spec fn advanced_by<T: FloatExt>(before: LinearSmooth<T>, n: nat) -> LinearSmooth<T>
    decreases n,
{
    if n == 0 {
        before
    } else {
        advanced(advanced_by(before, (n - 1) as nat))
    }
}

/// `smoother` is a smoother at zero whose ramps last one period of `freq`:
/// that period in samples, as `T` converts it, and as a whole number.
pub open spec fn is_new_linear_smooth<T: FloatExt>(
    sample_rate: T,
    freq: T,
    smoother: LinearSmooth<T>,
) -> bool {
    &&& is_literal("0", smoother.current)
    &&& smoother.target == smoother.current
    &&& smoother.step_size == smoother.current
    &&& smoother.steps_left == 0
    &&& call_ensures(T::to_usize, (smoother.ramp_time_in_samples,), smoother.ramp_time)
    &&& exists|one: T, thousand: T, milli: T|
        {
            &&& is_literal("1", one)
            &&& is_literal("1000", thousand)
            &&& is_literal("0.001", milli)
            &&& smoother.ramp_time_in_samples == mstosamps_spec(
                one.div_spec(freq).mul_spec(thousand),
                milli,
                sample_rate,
            )
        }
}

impl<T: FloatExt> LinearSmooth<T> {
    /// A smoother at zero whose ramps last one period of `freq`.
    pub fn new(sample_rate: T, freq: T) -> (smoother: Self)
        requires
            operators_total::<T>(),
        ensures
            operators_exact::<T>() ==> is_new_linear_smooth(sample_rate, freq, smoother),
    {
        let one = T::literal("1");
        let thousand = T::literal("1000");
        let zero = T::literal("0");
        let milli = T::literal("0.001");
        let ramp_time_in_samples = mstosamps(one / freq * thousand, milli, sample_rate);
        assert(is_literal("1", one) && is_literal("1000", thousand) && is_literal("0.001", milli));
        LinearSmooth {
            current: zero,
            target: zero,
            step_size: zero,
            steps_left: 0,
            ramp_time: ramp_time_in_samples.to_usize(),
            ramp_time_in_samples,
        }
    }

    /// Sets the target; a new target starts a ramp from the current value.
    pub fn set_target(&mut self, target: T)
        requires
            operators_total::<T>(),
        ensures
            operators_exact::<T>() ==> *final(self) == retargeted(*old(self), target),
            final(self).current == old(self).current,
            final(self).ramp_time == old(self).ramp_time,
            final(self).ramp_time_in_samples == old(self).ramp_time_in_samples,
    {
        if target != self.target {
            self.step_size = (target - self.current) / self.ramp_time_in_samples;
            self.steps_left = self.ramp_time;
            self.target = target;
        }
    }

    /// Sets value and target without a ramp.
    pub fn reset(&mut self, value: T)
        ensures
            *final(self) == (LinearSmooth {
                current: value,
                target: value,
                steps_left: 0,
                ..*old(self)
            }),
    {
        self.current = value;
        self.target = value;
        self.steps_left = 0;
    }

    /// The value for the next sample.
    pub fn next(&mut self) -> (value: T)
        requires
            operators_total::<T>(),
        ensures
            operators_exact::<T>() ==> *final(self) == advanced(*old(self)),
            value == final(self).current,
            final(self).target == old(self).target,
            final(self).ramp_time == old(self).ramp_time,
            final(self).ramp_time_in_samples == old(self).ramp_time_in_samples,
    {
        if self.steps_left > 0 {
            self.steps_left -= 1;
            self.current = self.current + self.step_size;
        }
        self.current
    }
}

/// A ramp is linear and takes exactly as many samples as it has left: each of
/// them moves the value by the same step, and after the last the value holds.
pub proof fn lemma_advance_is_linear<T: FloatExt>(before: LinearSmooth<T>, n: nat)
    ensures
        advanced_by(before, n).step_size == before.step_size,
        advanced_by(before, n).target == before.target,
        n <= before.steps_left ==> advanced_by(before, n).steps_left == before.steps_left - n,
        1 <= n <= before.steps_left ==> advanced_by(before, n).current == advanced_by(
            before,
            (n - 1) as nat,
        ).current.add_spec(before.step_size),
        n >= before.steps_left ==> {
            &&& advanced_by(before, n).steps_left == 0
            &&& advanced_by(before, n).current == advanced_by(
                before,
                before.steps_left as nat,
            ).current
        },
    decreases n,
{
    if n > 0 {
        lemma_advance_is_linear(before, (n - 1) as nat);
    }
}

/// After a new target has been set, the ramp toward it takes exactly
/// `ramp_time` samples.
pub proof fn lemma_new_target_ramps<T: FloatExt>(before: LinearSmooth<T>, target: T, n: nat)
    requires
        !target.eq_spec(&before.target),
    ensures
        n <= before.ramp_time ==> advanced_by(retargeted(before, target), n).steps_left
            == before.ramp_time - n,
        n >= before.ramp_time ==> advanced_by(retargeted(before, target), n).current
            == advanced_by(retargeted(before, target), before.ramp_time as nat).current,
        advanced_by(retargeted(before, target), n).step_size == target.sub_spec(
            before.current,
        ).div_spec(before.ramp_time_in_samples),
{
    lemma_advance_is_linear(retargeted(before, target), n);
}

} // verus!
