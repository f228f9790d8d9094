//! A fixed-capacity ring of samples that is written once per sample and read
//! back at a distance behind the write cursor.
use crate::float_ext::{
    is_literal, mstosamps, mstosamps_spec, operators_exact, operators_total, FloatExt,
};
use vstd::prelude::*;
use vstd::std_specs::ops::{AddSpec, MulSpec, SubSpec};

verus! {

/// How a read between two stored samples is resolved.
#[derive(Clone, Copy, PartialEq, Eq, Debug)]
pub enum Interpolation {
    /// The stored sample at the whole part of the distance.
    Step,
    /// A blend of the two stored samples that bracket the distance.
    Linear,
}

/// The ring: its view is the history of the last `capacity` writes.
pub struct DelayLine<T> {
    buffer: Vec<T>,
    write_pointer: usize,
    sample_rate: T,
    milli: T,
}

/// Where the sample written `distance` writes before the latest one is stored.
pub open spec fn slot(write_pointer: int, distance: int, capacity: int) -> int {
    if distance < write_pointer {
        write_pointer - 1 - distance
    } else {
        write_pointer - 1 - distance + capacity
    }
}

/// The history after one more write: the new sample in front, the oldest dropped.
pub open spec fn written<T>(history: Seq<T>, sample: T) -> Seq<T> {
    seq![sample] + history.drop_last()
}

/// The blend of two neighbouring samples at the fraction `mix` of the way from
/// `near` to `far`.
pub open spec fn blend<T: FloatExt>(near: T, far: T, mix: T) -> T {
    near.add_spec(far.sub_spec(near).mul_spec(mix))
}

/// `out` is a value that a read `distance` samples behind the latest write may
/// return, given the history and the results of the conversions that the read
/// makes: the stored sample at the whole part of the distance, or the blend of
/// that sample and the one before it at the fraction that is left.
pub open spec fn is_read<T: FloatExt>(
    history: Seq<T>,
    distance: T,
    interp: Interpolation,
    out: T,
) -> bool {
    let len = history.len() as int;
    match interp {
        Interpolation::Step => exists|k: usize|
            {
                &&& call_ensures(T::to_usize, (distance,), k)
                &&& out == history[k as int % len]
            },
        Interpolation::Linear => exists|whole: T, k: usize|
            {
                &&& call_ensures(T::trunc, (distance,), whole)
                &&& call_ensures(T::to_usize, (whole,), k)
                &&& out == blend(
                    history[k as int % len],
                    history[(k as int % len + 1) % len],
                    distance.sub_spec(whole),
                )
            },
    }
}

/// `line` is a silent ring of `length` samples (of one where `length` is
/// zero) for `sample_rate`.
pub open spec fn is_new_line<T: FloatExt>(length: usize, sample_rate: T, line: DelayLine<T>) -> bool {
    &&& line.wf()
    &&& line.capacity() == if length == 0 {
        1
    } else {
        length as nat
    }
    &&& line.sample_rate() == sample_rate
    &&& is_literal("0.001", line.milli())
    &&& line.history().len() == line.capacity()
    &&& exists|zero: T| #[trigger]
        is_literal("0", zero) && forall|k: int|
            0 <= k < line.capacity() ==> line.history()[k] == zero
}

impl<T: FloatExt> DelayLine<T> {
    /// The buffer is not empty and the cursor is inside it.
    pub closed spec fn wf(&self) -> bool {
        &&& self.buffer.len() > 0
        &&& self.write_pointer < self.buffer.len()
    }

    /// The number of samples the ring holds.
    pub open spec fn capacity(&self) -> nat {
        self.history().len()
    }

    /// The sample rate that times are converted with.
    pub closed spec fn sample_rate(&self) -> T {
        self.sample_rate
    }

    /// The thousandth that milliseconds are converted with.
    pub closed spec fn milli(&self) -> T {
        self.milli
    }

    /// The distance in samples that `time` milliseconds stand for.
    pub open spec fn distance(&self, time: T) -> T {
        mstosamps_spec(time, self.milli(), self.sample_rate())
    }

    /// The stored samples, newest first: entry `k` was written `k` writes
    /// before the latest one.
    pub closed spec fn history(&self) -> Seq<T> {
        Seq::new(
            self.buffer.len() as nat,
            |k: int| self.buffer@[slot(self.write_pointer as int, k, self.buffer.len() as int)],
        )
    }

    /// A ring of `length` samples (one where `length` is zero), all of them
    /// the zero of `T`.
    pub fn new(length: usize, sample_rate: T) -> (line: Self)
        ensures
            is_new_line(length, sample_rate, line),
    {
        let size: usize = if length == 0 { 1 } else { length };
        let zero = T::literal("0");
        let mut buffer: Vec<T> = Vec::new();
        while buffer.len() < size
            invariant
                buffer.len() <= size,
                is_literal("0", zero),
                forall|i: int| 0 <= i < buffer.len() ==> buffer@[i] == zero,
            decreases size - buffer.len(),
        {
            buffer.push(zero);
        }
        let line = DelayLine { buffer, write_pointer: 0, sample_rate, milli: T::literal("0.001") };
        assert(forall|k: int| 0 <= k < line.capacity() ==> line.history()[k] == zero);
        line
    }

    /// A usable ring holds at least one sample.
    pub proof fn lemma_capacity_is_positive(&self)
        requires
            self.wf(),
        ensures
            self.capacity() > 0,
    {
    }

    /// Stores `sample` at the cursor and advances the cursor by one, wrapping
    /// at the capacity.
    pub fn write(&mut self, sample: T)
        requires
            old(self).wf(),
        ensures
            final(self).wf(),
            final(self).capacity() == old(self).capacity(),
            final(self).sample_rate() == old(self).sample_rate(),
            final(self).milli() == old(self).milli(),
            final(self).history() == written(old(self).history(), sample),
    {
        let len = self.buffer.len();
        self.buffer[self.write_pointer] = sample;
        self.write_pointer = if self.write_pointer + 1 == len {
            0
        } else {
            self.write_pointer + 1
        };
        assert(self.history() =~= written(old(self).history(), sample));
    }

    /// The sample written `distance` writes before the latest one; distances
    /// wrap at the capacity.
    pub fn tap(&self, distance: usize) -> (sample: T)
        requires
            self.wf(),
        ensures
            self.capacity() > 0,
            sample == self.history()[distance as int % self.capacity() as int],
    {
        let len = self.buffer.len();
        let k = distance % len;
        if k < self.write_pointer {
            self.buffer[self.write_pointer - 1 - k]
        } else {
            self.buffer[len - (k - self.write_pointer) - 1]
        }
    }

    /// Reads the line `time` milliseconds behind the latest write. The cursor
    /// does not move.
    pub fn read(&self, time: T, interp: Interpolation) -> (out: T)
        requires
            self.wf(),
            operators_total::<T>(),
        ensures
            operators_exact::<T>() ==> is_read(self.history(), self.distance(time), interp, out),
    {
        let distance = mstosamps(time, self.milli, self.sample_rate);
        match interp {
            Interpolation::Step => self.tap(distance.to_usize()),
            Interpolation::Linear => {
                let whole = distance.trunc();
                let mix = distance - whole;
                let k = whole.to_usize();
                let near = self.tap(k);
                let far = self.tap(k % self.buffer.len() + 1);
                near + (far - near) * mix
            },
        }
    }
}

/// A step read at a distance whose whole part is zero returns the sample that
/// was written last.
pub proof fn lemma_read_latest<T: FloatExt>(history: Seq<T>, sample: T, distance: T, out: T)
    requires
        history.len() > 0,
        forall|k: usize| #[trigger] call_ensures(T::to_usize, (distance,), k) ==> k == 0,
        is_read(written(history, sample), distance, Interpolation::Step, out),
    ensures
        out == sample,
{
    let after = written(history, sample);
    assert(after.len() == history.len());
    assert(0int % (after.len() as int) == 0);
    assert(after[0] == sample);
}

/// A linear read at a distance whose whole part is zero returns the sample
/// that was written last, where a blend at the fraction that is left of the
/// distance gives the nearer sample.
pub proof fn lemma_linear_read_latest<T: FloatExt>(
    history: Seq<T>,
    sample: T,
    distance: T,
    out: T,
)
    requires
        history.len() > 0,
        forall|whole: T, k: usize|
            call_ensures(T::trunc, (distance,), whole) && #[trigger] call_ensures(
                T::to_usize,
                (whole,),
                k,
            ) ==> k == 0,
        forall|whole: T, far: T| #[trigger]
            call_ensures(T::trunc, (distance,), whole) ==> #[trigger] blend(
                sample,
                far,
                distance.sub_spec(whole),
            ) == sample,
        is_read(written(history, sample), distance, Interpolation::Linear, out),
    ensures
        out == sample,
{
    let after = written(history, sample);
    assert(after.len() == history.len());
    assert(0int % (after.len() as int) == 0);
    assert(after[0] == sample);
}

/// Whatever the history was, the sample written last is the one at distance
/// zero, and every earlier sample has moved one place back.
pub proof fn lemma_written_latest<T>(history: Seq<T>, sample: T)
    requires
        history.len() > 0,
    ensures
        written(history, sample).len() == history.len(),
        written(history, sample)[0] == sample,
        forall|k: int| 1 <= k < history.len() ==> written(history, sample)[k] == history[k - 1],
{
}

} // verus!
