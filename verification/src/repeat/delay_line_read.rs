//! One reader of the delay line: the spacing and the gain of each repeat, and
//! the sum of the repeats for one sample.
use crate::float_ext::{is_ge, is_literal, operators_exact, operators_total, FloatExt};
use crate::repeat::delay_line::{is_read, DelayLine, Interpolation};
use vstd::prelude::*;
use vstd::std_specs::cmp::PartialEqSpec;
use vstd::std_specs::ops::{AddSpec, MulSpec, SubSpec};

verus! {

/// The most repeats one reader sums.
pub const MAX_REPEATS: usize = 32;

/// A reader: the delay time of the repeat it computed last, and the constants
/// it computes with.
#[derive(Clone, Copy)]
pub struct DelayLineRead<T> {
    pub previous_time: T,
    pub zero: T,
    pub one: T,
    pub two: T,
}

/// The number of repeats that are summed for a requested count.
pub open spec fn tap_count(repeats: usize) -> nat {
    if repeats < MAX_REPEATS {
        repeats as nat
    } else {
        MAX_REPEATS as nat
    }
}

/// `out` is the exponent of the gain of repeat `index`: the index itself where
/// the feedback is at least zero, and the index counted from the last repeat
/// otherwise.
pub open spec fn is_feedback_index<T: FloatExt>(
    reader: DelayLineRead<T>,
    index: T,
    input: T,
    repeats: usize,
    out: T,
) -> bool {
    if is_ge(input, reader.zero) {
        out == index
    } else {
        exists|count: T|
            {
                &&& call_ensures(T::from_usize, (repeats,), count)
                &&& out == count.sub_spec(index).sub_spec(reader.one)
            }
    }
}

/// `out` is the gain of repeat `index`: one at unity feedback, and the
/// magnitude of the feedback raised to the repeat's exponent otherwise.
pub open spec fn is_gain<T: FloatExt>(
    reader: DelayLineRead<T>,
    index: T,
    feedback: T,
    repeats: usize,
    out: T,
) -> bool {
    exists|exponent: T|
        {
            &&& is_feedback_index(reader, index, feedback, repeats, exponent)
            &&& exists|magnitude: T|
                {
                    &&& call_ensures(T::abs, (feedback,), magnitude)
                    &&& if magnitude.eq_spec(&reader.one) {
                        out == reader.one
                    } else {
                        call_ensures(T::powf, (magnitude, exponent), out)
                    }
                }
        }
}

/// `out` is the delay time of repeat `index`, and `after` the time the reader
/// remembers once it has computed it, where it remembered `before`.
///
/// Repeat zero has no delay and clears the memory. Without skew the time is
/// `time * index`. With skew, each repeat adds `(2^skew)^(index - 1) * time`
/// to the time of the repeat before it.
pub open spec fn is_delay_time<T: FloatExt>(
    reader: DelayLineRead<T>,
    index: T,
    time: T,
    skew: T,
    out: T,
    after: T,
) -> bool {
    if index.eq_spec(&reader.zero) {
        out == reader.zero && after == reader.zero
    } else if skew.eq_spec(&reader.zero) {
        out == time.mul_spec(index) && after == reader.previous_time
    } else {
        exists|ratio: T, growth: T|
            {
                &&& call_ensures(T::powf, (reader.two, skew), ratio)
                &&& call_ensures(T::powf, (ratio, index.sub_spec(reader.one)), growth)
                &&& out == if index.eq_spec(&reader.one) {
                    growth.mul_spec(time)
                } else {
                    growth.mul_spec(time).add_spec(reader.previous_time)
                }
                &&& after == out
            }
    }
}

/// One repeat: `after` is the reader's memory and the running sum once repeat
/// `i` has been added, where they were `before`.
pub open spec fn is_tap<T: FloatExt>(
    reader: DelayLineRead<T>,
    line: DelayLine<T>,
    input: T,
    time_in_ms: T,
    repeats: usize,
    feedback: T,
    skew: T,
    i: usize,
    before: (T, T),
    after: (T, T),
) -> bool {
    let current = DelayLineRead { previous_time: before.0, ..reader };
    exists|index: T, gain: T|
        {
            &&& call_ensures(T::from_usize, (i,), index)
            &&& is_gain(current, index, feedback, repeats, gain)
            &&& if index.eq_spec(&reader.zero) {
                &&& after.0 == before.0
                &&& after.1 == before.1.add_spec(input.mul_spec(gain))
            } else {
                exists|time: T, sample: T|
                    {
                        &&& is_delay_time(
                            current,
                            index,
                            time_in_ms,
                            skew,
                            time,
                            after.0,
                        )
                        &&& is_read(
                            line.history(),
                            line.distance(time),
                            Interpolation::Linear,
                            sample,
                        )
                        &&& after.1 == before.1.add_spec(sample.mul_spec(gain))
                    }
            }
        }
}

/// `out` is the sum of the repeats and `after` the reader's memory once all of
/// them have been added: a chain of `is_tap` steps that starts from the
/// reader's memory and a sum of zero.
pub open spec fn is_taps<T: FloatExt>(
    reader: DelayLineRead<T>,
    line: DelayLine<T>,
    input: T,
    time_in_ms: T,
    repeats: usize,
    feedback: T,
    skew: T,
    out: T,
    after: T,
) -> bool {
    exists|steps: Seq<(T, T)>|
        {
            &&& steps.len() == tap_count(repeats) + 1
            &&& steps[0] == (reader.previous_time, reader.zero)
            &&& forall|i: usize|
                i < tap_count(repeats) ==> #[trigger] is_tap(
                    reader,
                    line,
                    input,
                    time_in_ms,
                    repeats,
                    feedback,
                    skew,
                    i,
                    steps[i as int],
                    steps[i + 1],
                )
            &&& steps.last() == (after, out)
        }
}

/// `reader` is a reader that remembers a delay time of zero.
pub open spec fn is_new_reader<T: FloatExt>(reader: DelayLineRead<T>) -> bool {
    &&& reader.previous_time == reader.zero
    &&& is_literal("0", reader.zero)
    &&& is_literal("1", reader.one)
    &&& is_literal("2", reader.two)
}

impl<T: FloatExt> DelayLineRead<T> {
    /// A reader that remembers a delay time of zero.
    pub fn new() -> (reader: Self)
        ensures
            is_new_reader(reader),
    {
        let zero = T::literal("0");
        DelayLineRead { previous_time: zero, zero, one: T::literal("1"), two: T::literal("2") }
    }

    /// The exponent of the gain of repeat `index`; negative feedback counts the
    /// repeats from the last one.
    pub fn reverse_indices(&self, index: T, input: T, repeats: usize) -> (out: T)
        requires
            operators_total::<T>(),
        ensures
            operators_exact::<T>() ==> is_feedback_index(*self, index, input, repeats, out),
    {
        if input >= self.zero {
            index
        } else {
            T::from_usize(repeats) - index - self.one
        }
    }

    /// The gain of repeat `index`.
    pub fn simulate_feedback(&self, index: T, feedback: T, repeats: usize) -> (gain: T)
        requires
            operators_total::<T>(),
        ensures
            operators_exact::<T>() ==> is_gain(*self, index, feedback, repeats, gain),
    {
        let feedback_index = self.reverse_indices(index, feedback, repeats);
        let absolute_feedback = feedback.abs();
        if absolute_feedback == self.one {
            self.one
        } else {
            absolute_feedback.powf(feedback_index)
        }
    }

    /// The delay time of repeat `index`, in the unit of `time`.
    pub fn get_delay_time(&mut self, index: T, time: T, skew: T) -> (delay_time: T)
        requires
            operators_total::<T>(),
        ensures
            operators_exact::<T>() ==> is_delay_time(
                *old(self),
                index,
                time,
                skew,
                delay_time,
                final(self).previous_time,
            ),
            final(self).zero == old(self).zero,
            final(self).one == old(self).one,
            final(self).two == old(self).two,
    {
        if index == self.zero {
            self.previous_time = self.zero;
            self.zero
        } else if skew == self.zero {
            time * index
        } else {
            let exponential_skew = self.two.powf(skew);
            let growth = exponential_skew.powf(index - self.one);
            let delay_time = if index == self.one {
                growth * time
            } else {
                growth * time + self.previous_time
            };
            self.previous_time = delay_time;
            delay_time
        }
    }

    /// The sum of the repeats for one sample: the input at the gain of repeat
    /// zero, and for each later repeat the delay line read at that repeat's
    /// delay time, at that repeat's gain.
    pub fn run(
        &mut self,
        input: T,
        delay_line: &DelayLine<T>,
        time_in_ms: T,
        repeats: usize,
        feedback: T,
        skew: T,
    ) -> (out: T)
        requires
            operators_total::<T>(),
            delay_line.wf(),
        ensures
            operators_exact::<T>() ==> is_taps(
                *old(self),
                *delay_line,
                input,
                time_in_ms,
                repeats,
                feedback,
                skew,
                out,
                final(self).previous_time,
            ),
            final(self).zero == old(self).zero,
            final(self).one == old(self).one,
            final(self).two == old(self).two,
    {
        let count: usize = if repeats < MAX_REPEATS { repeats } else { MAX_REPEATS };
        let mut sum = self.zero;
        let mut i: usize = 0;
        let ghost mut steps: Seq<(T, T)> = seq![(self.previous_time, self.zero)];
        while i < count
            invariant
                operators_total::<T>(),
                delay_line.wf(),
                i <= count,
                count == tap_count(repeats),
                self.zero == old(self).zero,
                self.one == old(self).one,
                self.two == old(self).two,
                steps.len() == i + 1,
                steps[0] == (old(self).previous_time, old(self).zero),
                steps.last() == (self.previous_time, sum),
                operators_exact::<T>() ==> forall|j: usize|
                    j < i ==> #[trigger] is_tap(
                        *old(self),
                        *delay_line,
                        input,
                        time_in_ms,
                        repeats,
                        feedback,
                        skew,
                        j,
                        steps[j as int],
                        steps[j + 1],
                    ),
            decreases count - i,
        {
            let ghost before = (self.previous_time, sum);
            let ghost reader = *self;
            let index = T::from_usize(i);
            let gain = self.simulate_feedback(index, feedback, repeats);
            if index == self.zero {
                sum = sum + input * gain;
            } else {
                let time = self.get_delay_time(index, time_in_ms, skew);
                let sample = delay_line.read(time, Interpolation::Linear);
                sum = sum + sample * gain;
            }
            proof {
                let after = (self.previous_time, sum);
                if operators_exact::<T>() {
                    assert(reader == (DelayLineRead { previous_time: before.0, ..*old(self) }));
                    assert(is_tap(
                        *old(self),
                        *delay_line,
                        input,
                        time_in_ms,
                        repeats,
                        feedback,
                        skew,
                        i,
                        before,
                        after,
                    ));
                }
                steps = steps.push(after);
            }
            i = i + 1;
        }
        sum
    }
}

/// Without skew the delay time is linear in the index, whatever the reader
/// remembers: it is `time * index`, for the first repeat too where `time`
/// times an index of zero is zero.
pub proof fn lemma_zero_skew_is_linear<T: FloatExt>(
    reader: DelayLineRead<T>,
    index: T,
    time: T,
    skew: T,
    out: T,
    after: T,
)
    requires
        is_delay_time(reader, index, time, skew, out, after),
        skew.eq_spec(&reader.zero),
        index.eq_spec(&reader.zero) ==> time.mul_spec(index) == reader.zero,
    ensures
        out == time.mul_spec(index),
        !index.eq_spec(&reader.zero) ==> after == reader.previous_time,
{
}

/// The first repeat has no delay, whatever the skew.
pub proof fn lemma_first_repeat_is_undelayed<T: FloatExt>(
    reader: DelayLineRead<T>,
    index: T,
    time: T,
    skew: T,
    out: T,
    after: T,
)
    requires
        is_delay_time(reader, index, time, skew, out, after),
        index.eq_spec(&reader.zero),
    ensures
        out == reader.zero,
        after == reader.zero,
{
}

/// At unity feedback every repeat has a gain of one.
pub proof fn lemma_unity_feedback<T: FloatExt>(
    reader: DelayLineRead<T>,
    index: T,
    feedback: T,
    repeats: usize,
    out: T,
)
    requires
        is_gain(reader, index, feedback, repeats, out),
        forall|magnitude: T| #[trigger]
            call_ensures(T::abs, (feedback,), magnitude) ==> magnitude.eq_spec(&reader.one),
    ensures
        out == reader.one,
{
}

/// A feedback of at least zero takes the index itself as the exponent, and so
/// does a zero of either sign where the type orders it with zero.
pub proof fn lemma_forward_exponent<T: FloatExt>(
    reader: DelayLineRead<T>,
    index: T,
    feedback: T,
    repeats: usize,
    out: T,
)
    requires
        is_feedback_index(reader, index, feedback, repeats, out),
        is_ge(feedback, reader.zero),
    ensures
        out == index,
{
}

/// A feedback below zero counts the repeats from the last one: repeat `index`
/// takes the exponent that repeat `count - index - 1` has going forward.
pub proof fn lemma_reversed_exponent<T: FloatExt>(
    reader: DelayLineRead<T>,
    index: T,
    feedback: T,
    repeats: usize,
    out: T,
)
    requires
        is_feedback_index(reader, index, feedback, repeats, out),
        !is_ge(feedback, reader.zero),
    ensures
        exists|count: T| #[trigger]
            call_ensures(T::from_usize, (repeats,), count) && out == count.sub_spec(
                index,
            ).sub_spec(reader.one),
{
}

} // verus!
