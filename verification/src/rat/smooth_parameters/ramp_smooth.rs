//! A control smoother that follows its input along a linear ramp of a fixed
//! number of samples.
use crate::float_ext::{
    is_equal_to, is_level, is_literal, mstosamps, mstosamps_spec, operators_exact,
    operators_total, FloatExt,
};
use vstd::prelude::*;
use vstd::std_specs::cmp::PartialEqSpec;
use vstd::std_specs::ops::{AddSpec, DivSpec, MulSpec, SubSpec};

verus! {

/// The smoother: `z` is its value, `prev` the target of the ramp under way,
/// `index` the samples the ramp has left and `step_size` its step.
pub struct RampSmooth<T> {
    pub prev: T,
    pub index: usize,
    pub step_size: T,
    pub z: T,
    pub ramp_time: usize,
    pub ramp_factor: T,
    pub epsilon: T,
}

/// The smoother after one sample on the way to `input`, which is `difference`
/// away.
///
/// A target that differs from the one under way starts a ramp of `ramp_time`
/// samples with the step `difference * ramp_factor`. While the ramp has
/// samples left, it loses one and the value moves by the step.
pub open spec fn ramp_step<T: FloatExt>(
    before: RampSmooth<T>,
    input: T,
    difference: T,
) -> RampSmooth<T> {
    let aimed = if input.eq_spec(&before.prev) {
        before
    } else {
        RampSmooth {
            index: before.ramp_time,
            step_size: difference.mul_spec(before.ramp_factor),
            prev: input,
            ..before
        }
    };
    if aimed.index > 0 {
        RampSmooth {
            index: (aimed.index - 1) as usize,
            z: aimed.z.add_spec(aimed.step_size),
            ..aimed
        }
    } else {
        aimed
    }
}

/// The smoother after `n` samples on the way to `input`.
pub open spec fn ramped<T: FloatExt>(before: RampSmooth<T>, input: T, n: nat) -> RampSmooth<T>
    decreases n,
{
    if n == 0 {
        before
    } else {
        let earlier = ramped(before, input, (n - 1) as nat);
        ramp_step(earlier, input, input.sub_spec(earlier.z))
    }
}

/// `smoother` is a smoother at zero whose ramps last one period of `freq`:
/// that period in samples, and as a whole number as `T` converts it.
pub open spec fn is_new_ramp_smooth<T: FloatExt>(
    sample_rate: T,
    freq: T,
    smoother: RampSmooth<T>,
) -> bool {
    &&& is_literal("0", smoother.z)
    &&& smoother.prev == smoother.z
    &&& smoother.step_size == smoother.z
    &&& smoother.index == 0
    &&& call_ensures(T::epsilon, (), smoother.epsilon)
    &&& exists|one: T, thousand: T, milli: T|
        {
            &&& is_literal("1", one)
            &&& is_literal("1000", thousand)
            &&& is_literal("0.001", milli)
            &&& #[trigger] is_ramp_length(
                mstosamps_spec(one.div_spec(freq).mul_spec(thousand), milli, sample_rate),
                one,
                smoother,
            )
        }
}

/// The ramps of `smoother` last `samples` samples: that many as a whole
/// number, as `T` converts it, with the step factor `one / samples`.
pub open spec fn is_ramp_length<T: FloatExt>(samples: T, one: T, smoother: RampSmooth<T>) -> bool {
    &&& call_ensures(T::to_usize, (samples,), smoother.ramp_time)
    &&& smoother.ramp_factor == one.div_spec(samples)
}

/// `out` is the value of a smoother for one sample on the way to `input`, and
/// `after` the smoother once it has been computed. Where the value is already
/// level with the input, the input itself is returned and nothing changes.
pub open spec fn is_smoothed<T: FloatExt>(
    before: RampSmooth<T>,
    input: T,
    out: T,
    after: RampSmooth<T>,
) -> bool {
    exists|level: bool|
        {
            &&& #[trigger] is_level(input, before.z, before.epsilon, level)
            &&& if level {
                out == input && after == before
            } else {
                after == ramp_step(before, input, input.sub_spec(before.z)) && out == after.z
            }
        }
}

impl<T: FloatExt> RampSmooth<T> {
    /// A smoother at zero whose ramps last one period of `freq`.
    pub fn new(sample_rate: T, freq: T) -> (smoother: Self)
        requires
            operators_total::<T>(),
        ensures
            operators_exact::<T>() ==> is_new_ramp_smooth(sample_rate, freq, smoother),
    {
        let one = T::literal("1");
        let thousand = T::literal("1000");
        let zero = T::literal("0");
        let milli = T::literal("0.001");
        let ramp_time = mstosamps(one / freq * thousand, milli, sample_rate);
        let ramp_time_in_samples = ramp_time.to_usize();
        assert(is_literal("1", one) && is_literal("1000", thousand) && is_literal("0.001", milli));
        let smoother = RampSmooth {
            prev: zero,
            index: 0,
            step_size: zero,
            z: zero,
            ramp_time: ramp_time_in_samples,
            ramp_factor: one / ramp_time,
            epsilon: T::epsilon(),
        };
        assert(operators_exact::<T>() ==> is_ramp_length(
            mstosamps_spec(one.div_spec(freq).mul_spec(thousand), milli, sample_rate),
            one,
            smoother,
        ));
        smoother
    }

    /// Sets the value without a ramp: the value is its own target, and a ramp
    /// under way is given up.
    pub fn initialize(&mut self, value: T)
        ensures
            *final(self) == initialized(*old(self), value),
    {
        self.z = value;
        self.prev = value;
        self.index = 0;
    }

    /// The value for one sample on the way to `input`. Where the value is
    /// already level with the input, the input itself is returned and nothing
    /// changes.
    pub fn process(&mut self, input: T) -> (out: T)
        requires
            operators_total::<T>(),
        ensures
            operators_exact::<T>() ==> is_smoothed(*old(self), input, out, *final(self)),
    {
        if is_equal_to(input, self.z, self.epsilon) {
            input
        } else {
            let difference = input - self.z;
            self.ramp(input, difference)
        }
    }

    /// One sample of the ramp toward `input`.
    pub fn ramp(&mut self, input: T, difference: T) -> (out: T)
        requires
            operators_total::<T>(),
        ensures
            operators_exact::<T>() ==> *final(self) == ramp_step(*old(self), input, difference),
            out == final(self).z,
            final(self).ramp_time == old(self).ramp_time,
            final(self).ramp_factor == old(self).ramp_factor,
            final(self).epsilon == old(self).epsilon,
    {
        if input != self.prev {
            self.index = self.ramp_time;
            self.step_size = difference * self.ramp_factor;
            self.prev = input;
        }
        if self.index > 0 {
            self.index -= 1;
            self.z = self.z + self.step_size;
        }
        self.z
    }
}

/// A ramp toward a new target is linear and takes exactly `ramp_time` samples.
///
/// From any state, and for any target that differs from the one under way,
/// the first sample fixes the step at `(input - z) * ramp_factor`. Each of the
/// first `ramp_time` samples moves the value by that step and takes one from
/// the samples left. After that the value holds.
pub proof fn lemma_ramp_is_linear<T: FloatExt>(before: RampSmooth<T>, input: T, n: nat)
    requires
        input.eq_spec(&input),
        !input.eq_spec(&before.prev),
        n >= 1,
    ensures
        ramped(before, input, n).step_size == input.sub_spec(before.z).mul_spec(
            before.ramp_factor,
        ),
        ramped(before, input, n).prev == input,
        ramped(before, input, n).ramp_time == before.ramp_time,
        ramped(before, input, n).ramp_factor == before.ramp_factor,
        n <= before.ramp_time ==> {
            &&& ramped(before, input, n).index == before.ramp_time - n
            &&& ramped(before, input, n).z == ramped(before, input, (n - 1) as nat).z.add_spec(
                input.sub_spec(before.z).mul_spec(before.ramp_factor),
            )
        },
        n > before.ramp_time ==> {
            &&& ramped(before, input, n).index == 0
            &&& ramped(before, input, n).z == ramped(before, input, before.ramp_time as nat).z
        },
    decreases n,
{
    if n > 1 {
        lemma_ramp_is_linear(before, input, (n - 1) as nat);
    } else {
        assert(ramped(before, input, 0) == before);
    }
}

/// The smoother once its value has been set without a ramp.
pub open spec fn initialized<T: FloatExt>(before: RampSmooth<T>, value: T) -> RampSmooth<T> {
    RampSmooth { z: value, prev: value, index: 0, ..before }
}

/// After the value has been set without a ramp, a target that differs from it
/// is ramped to in exactly `ramp_time` samples, as any new target is.
pub proof fn lemma_initialized_ramps<T: FloatExt>(
    before: RampSmooth<T>,
    value: T,
    input: T,
    n: nat,
)
    requires
        input.eq_spec(&input),
        !input.eq_spec(&value),
        n >= 1,
    ensures
        ramped(initialized(before, value), input, n).step_size == input.sub_spec(value).mul_spec(
            before.ramp_factor,
        ),
        n <= before.ramp_time ==> {
            &&& ramped(initialized(before, value), input, n).index == before.ramp_time - n
            &&& ramped(initialized(before, value), input, n).z == ramped(
                initialized(before, value),
                input,
                (n - 1) as nat,
            ).z.add_spec(input.sub_spec(value).mul_spec(before.ramp_factor))
        },
        n > before.ramp_time ==> ramped(initialized(before, value), input, n).z == ramped(
            initialized(before, value),
            input,
            before.ramp_time as nat,
        ).z,
{
    lemma_ramp_is_linear(initialized(before, value), input, n);
}

} // verus!
