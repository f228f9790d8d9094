//! The multi-tap echo: a delay line that is written once per sample and read
//! back by a set of repeats, with a crossfade between the setting in effect
//! and a new one whenever a control changes.
pub mod delay_line;
pub mod delay_line_read;
pub mod ramp;

use crate::float_ext::{is_ge, is_literal, operators_exact, operators_total, FloatExt};
use crate::repeat::delay_line::{is_new_line, written, DelayLine};
use crate::repeat::delay_line_read::{is_new_reader, is_taps, DelayLineRead};
use crate::repeat::ramp::{is_new_ramp, ramp_next, Ramp};
use vstd::prelude::*;
use vstd::std_specs::cmp::PartialEqSpec;
use vstd::std_specs::ops::{AddSpec, DivSpec, MulSpec, SubSpec};

verus! {

/// One setting of the controls that shape the repeats.
#[derive(Clone, Copy)]
pub struct VariableParameters<T> {
    pub repeats: usize,
    pub time_in_ms: T,
    pub feedback: T,
    pub skew: T,
}

impl<T: FloatExt> PartialEq for VariableParameters<T> {
    fn eq(&self, other: &Self) -> (r: bool) {
        self.repeats == other.repeats && self.time_in_ms == other.time_in_ms && self.feedback
            == other.feedback && self.skew == other.skew
    }
}

impl<T: FloatExt> vstd::std_specs::cmp::PartialEqSpecImpl for VariableParameters<T> {
    open spec fn obeys_eq_spec() -> bool {
        T::obeys_eq_spec()
    }

    open spec fn eq_spec(&self, other: &Self) -> bool {
        &&& self.repeats == other.repeats
        &&& self.time_in_ms.eq_spec(&other.time_in_ms)
        &&& self.feedback.eq_spec(&other.feedback)
        &&& self.skew.eq_spec(&other.skew)
    }
}

/// The echo engine.
///
/// `previous_parameters` and `current_parameters` are the setting that is
/// fading out and the one in effect; each has a reader of its own. Outside a
/// crossfade only the first reader runs, with the setting in effect.
pub struct Repeat<T> {
    pub delay_line: DelayLine<T>,
    pub previous_reader: DelayLineRead<T>,
    pub current_reader: DelayLineRead<T>,
    pub previous_parameters: VariableParameters<T>,
    pub current_parameters: VariableParameters<T>,
    pub ramp: Ramp<T>,
    pub zero: T,
    pub one: T,
    pub crossfade_freq: T,
    pub thousand: T,
    pub half_pi: T,
}

/// Everything but the delay line's contents is the same in both engines.
pub open spec fn same_but_line<T: FloatExt>(a: Repeat<T>, b: Repeat<T>) -> bool {
    a == (Repeat { delay_line: a.delay_line, ..b })
}

/// The setting that the controls of one sample describe.
pub open spec fn requested<T: FloatExt>(
    engine: Repeat<T>,
    freq: T,
    repeats: usize,
    feedback: T,
    skew: T,
) -> VariableParameters<T> {
    VariableParameters { repeats, time_in_ms: engine.thousand.div_spec(freq), feedback, skew }
}

/// `out` is the crossfaded output of one sample, and `after` the engine once
/// it has been computed: the ramp advances by one sample, the window is the
/// squared cosine of the ramp's value times a quarter turn, the fading
/// setting is heard through the window and the setting in effect through its
/// complement.
pub open spec fn is_crossfade<T: FloatExt>(
    before: Repeat<T>,
    input: T,
    out: T,
    after: Repeat<T>,
) -> bool {
    let ramp = ramp_next(before.ramp, before.crossfade_freq, before.zero, before.one);
    exists|cosine: T, fading: T, rising: T|
        {
            &&& call_ensures(T::cos, (ramp.x.mul_spec(before.half_pi),), cosine)
            &&& is_taps(
                before.previous_reader,
                before.delay_line,
                input,
                before.previous_parameters.time_in_ms,
                before.previous_parameters.repeats,
                before.previous_parameters.feedback,
                before.previous_parameters.skew,
                fading,
                after.previous_reader.previous_time,
            )
            &&& is_taps(
                before.current_reader,
                before.delay_line,
                input,
                before.current_parameters.time_in_ms,
                before.current_parameters.repeats,
                before.current_parameters.feedback,
                before.current_parameters.skew,
                rising,
                after.current_reader.previous_time,
            )
            &&& out == fading.mul_spec(cosine.mul_spec(cosine)).add_spec(
                rising.mul_spec(before.one.sub_spec(cosine.mul_spec(cosine))),
            )
            &&& after == (Repeat {
                previous_reader: DelayLineRead {
                    previous_time: after.previous_reader.previous_time,
                    ..before.previous_reader
                },
                current_reader: DelayLineRead {
                    previous_time: after.current_reader.previous_time,
                    ..before.current_reader
                },
                ramp,
                ..before
            })
        }
}

/// `out` is the sum of the repeats for one sample, and `after` the engine once
/// it has been computed.
///
/// At rest with unchanged controls the first reader runs with the requested
/// setting. At rest with changed controls the setting in effect becomes the
/// fading one, the requested setting takes effect, the ramp is armed and the
/// sample is crossfaded. During a crossfade the controls are not looked at.
pub open spec fn is_repeat<T: FloatExt>(
    before: Repeat<T>,
    input: T,
    freq: T,
    repeats: usize,
    feedback: T,
    skew: T,
    out: T,
    after: Repeat<T>,
) -> bool {
    let current = requested(before, freq, repeats, feedback, skew);
    if before.ramp.is_active {
        is_crossfade(before, input, out, after)
    } else if current.eq_spec(&before.current_parameters) {
        &&& is_taps(
            before.previous_reader,
            before.delay_line,
            input,
            current.time_in_ms,
            current.repeats,
            current.feedback,
            current.skew,
            out,
            after.previous_reader.previous_time,
        )
        &&& after == (Repeat {
            previous_reader: DelayLineRead {
                previous_time: after.previous_reader.previous_time,
                ..before.previous_reader
            },
            current_parameters: current,
            ..before
        })
    } else {
        is_crossfade(
            Repeat {
                previous_parameters: before.current_parameters,
                current_parameters: current,
                ramp: Ramp { initial: None, trigger: true, is_active: true, ..before.ramp },
                ..before
            },
            input,
            out,
            after,
        )
    }
}

/// The length of the delay line for a sample rate of `rate` samples: ten
/// seconds, held inside the range of `usize`.
pub open spec fn line_length(rate: usize) -> usize {
    if rate * 10 > usize::MAX {
        usize::MAX
    } else {
        (rate * 10) as usize
    }
}

/// `engine` is an engine at rest for `sample_rate`: ten seconds of silence in
/// the delay line, and in effect four repeats a fifth of a second apart
/// without feedback or skew.
pub open spec fn is_new_repeat<T: FloatExt>(sample_rate: T, engine: Repeat<T>) -> bool {
    &&& exists|rate: usize| #[trigger]
        call_ensures(T::to_usize, (sample_rate,), rate) && is_new_line(
            line_length(rate),
            sample_rate,
            engine.delay_line,
        )
    &&& is_new_reader(engine.previous_reader)
    &&& engine.current_reader == engine.previous_reader
    &&& engine.previous_parameters == engine.current_parameters
    &&& engine.current_parameters.repeats == 4
    &&& is_literal("200", engine.current_parameters.time_in_ms)
    &&& engine.current_parameters.feedback == engine.zero
    &&& engine.current_parameters.skew == engine.zero
    &&& is_new_ramp(sample_rate, engine.ramp)
    &&& is_literal("0", engine.zero)
    &&& is_literal("1", engine.one)
    &&& is_literal("5", engine.crossfade_freq)
    &&& is_literal("1000", engine.thousand)
    &&& is_literal("1.57079632679489661923132169163975144", engine.half_pi)
}

impl<T: FloatExt> Repeat<T> {
    /// The delay line is usable.
    pub open spec fn wf(&self) -> bool {
        self.delay_line.wf()
    }

    /// An engine at rest: ten seconds of silence in the delay line, four
    /// repeats a fifth of a second apart without feedback or skew in effect.
    pub fn new(sample_rate: T) -> (engine: Self)
        ensures
            engine.wf(),
            is_new_repeat(sample_rate, engine),
    {
        let rate = sample_rate.to_usize();
        let length = match rate.checked_mul(10) {
            Some(length) => length,
            None => usize::MAX,
        };
        let zero = T::literal("0");
        let parameters = VariableParameters {
            repeats: 4,
            time_in_ms: T::literal("200"),
            feedback: zero,
            skew: zero,
        };
        let reader = DelayLineRead::new();
        Repeat {
            delay_line: DelayLine::new(length, sample_rate),
            previous_reader: reader,
            current_reader: reader,
            previous_parameters: parameters,
            current_parameters: parameters,
            ramp: Ramp::new(sample_rate),
            zero,
            one: T::literal("1"),
            crossfade_freq: T::literal("5"),
            thousand: T::literal("1000"),
            half_pi: T::literal("1.57079632679489661923132169163975144"),
        }
    }

    /// One crossfaded sample.
    pub fn crossfade(&mut self, input: T) -> (out: T)
        requires
            old(self).wf(),
            operators_total::<T>(),
        ensures
            operators_exact::<T>() ==> is_crossfade(*old(self), input, out, *final(self)),
            final(self).delay_line == old(self).delay_line,
            final(self).previous_parameters == old(self).previous_parameters,
            final(self).current_parameters == old(self).current_parameters,
            final(self).ramp.is_active ==> old(self).ramp.is_active,
    {
        let ramp = self.ramp.run(self.crossfade_freq, self.zero, self.one);
        let cosine = (ramp * self.half_pi).cos();
        let window = cosine * cosine;
        let fading = self.previous_reader.run(
            input,
            &self.delay_line,
            self.previous_parameters.time_in_ms,
            self.previous_parameters.repeats,
            self.previous_parameters.feedback,
            self.previous_parameters.skew,
        );
        let rising = self.current_reader.run(
            input,
            &self.delay_line,
            self.current_parameters.time_in_ms,
            self.current_parameters.repeats,
            self.current_parameters.feedback,
            self.current_parameters.skew,
        );
        fading * window + rising * (self.one - window)
    }

    /// The sum of the repeats for one sample at `freq` repeats per second.
    pub fn repeat(&mut self, input: T, freq: T, repeats: usize, feedback: T, skew: T) -> (out: T)
        requires
            old(self).wf(),
            operators_total::<T>(),
        ensures
            operators_exact::<T>() ==> is_repeat(
                *old(self),
                input,
                freq,
                repeats,
                feedback,
                skew,
                out,
                *final(self),
            ),
            final(self).delay_line == old(self).delay_line,
            old(self).ramp.is_active ==> {
                &&& final(self).previous_parameters == old(self).previous_parameters
                &&& final(self).current_parameters == old(self).current_parameters
            },
    {
        let time_in_ms = self.thousand / freq;
        let current_parameters = VariableParameters { repeats, time_in_ms, feedback, skew };
        let parameters_have_changed = current_parameters != self.current_parameters;
        if !self.ramp.is_finished() {
            self.crossfade(input)
        } else if !parameters_have_changed {
            let repeats_out = self.previous_reader.run(
                input,
                &self.delay_line,
                current_parameters.time_in_ms,
                current_parameters.repeats,
                current_parameters.feedback,
                current_parameters.skew,
            );
            self.current_parameters = current_parameters;
            repeats_out
        } else {
            self.previous_parameters = self.current_parameters;
            self.current_parameters = current_parameters;
            self.ramp.start(None);
            self.crossfade(input)
        }
    }

    /// One sample of the effect: the repeats are summed from what the delay
    /// line held before this sample, then the input is written to it.
    pub fn run(&mut self, input: T, freq: T, repeats: T, feedback: T, skew: T) -> (out: T)
        requires
            old(self).wf(),
            operators_total::<T>(),
        ensures
            final(self).wf(),
            operators_exact::<T>() ==> exists|count: usize, summed: Repeat<T>|
                {
                    &&& call_ensures(T::to_usize, (repeats,), count)
                    &&& #[trigger] is_repeat(
                        *old(self),
                        input,
                        freq,
                        count,
                        feedback,
                        skew,
                        out,
                        summed,
                    )
                    &&& same_but_line(*final(self), summed)
                },
            final(self).delay_line.history() == written(old(self).delay_line.history(), input),
            final(self).delay_line.capacity() == old(self).delay_line.capacity(),
            final(self).delay_line.sample_rate() == old(self).delay_line.sample_rate(),
            final(self).delay_line.milli() == old(self).delay_line.milli(),
            old(self).ramp.is_active ==> {
                &&& final(self).previous_parameters == old(self).previous_parameters
                &&& final(self).current_parameters == old(self).current_parameters
            },
    {
        let repeated = self.repeat(input, freq, repeats.to_usize(), feedback, skew);
        let ghost summed = *self;
        self.delay_line.write(input);
        assert(same_but_line(*self, summed));
        repeated
    }
}

/// During a crossfade the controls are not looked at: what one setting of
/// the controls may give, every other setting may give as well, and the two
/// settings that are being crossfaded stay as they are.
pub proof fn lemma_crossfade_ignores_the_controls<T: FloatExt>(
    before: Repeat<T>,
    input: T,
    controls: (T, usize, T, T),
    others: (T, usize, T, T),
    out: T,
    after: Repeat<T>,
)
    requires
        before.ramp.is_active,
        is_repeat(before, input, controls.0, controls.1, controls.2, controls.3, out, after),
    ensures
        is_repeat(before, input, others.0, others.1, others.2, others.3, out, after),
        after.previous_parameters == before.previous_parameters,
        after.current_parameters == before.current_parameters,
{
}

/// A change of the controls at rest starts a crossfade from the setting that
/// was in effect to the requested one, and the first sample of the crossfade
/// is taken at the origin of the ramp: the fading setting is heard through
/// the window of a ramp value of zero.
pub proof fn lemma_change_starts_a_crossfade<T: FloatExt>(
    before: Repeat<T>,
    input: T,
    freq: T,
    repeats: usize,
    feedback: T,
    skew: T,
    out: T,
    after: Repeat<T>,
)
    requires
        !before.ramp.is_active,
        !requested(before, freq, repeats, feedback, skew).eq_spec(&before.current_parameters),
        is_repeat(before, input, freq, repeats, feedback, skew, out, after),
    ensures
        after.previous_parameters == before.current_parameters,
        after.current_parameters == requested(before, freq, repeats, feedback, skew),
        !after.ramp.trigger,
        !is_ge(before.zero, before.one) ==> after.ramp.x == before.zero && after.ramp.is_active,
{
}

/// At rest with unchanged controls nothing fades: the ramp stays at rest and
/// the fading setting is left alone.
pub proof fn lemma_rest_is_kept<T: FloatExt>(
    before: Repeat<T>,
    input: T,
    freq: T,
    repeats: usize,
    feedback: T,
    skew: T,
    out: T,
    after: Repeat<T>,
)
    requires
        !before.ramp.is_active,
        requested(before, freq, repeats, feedback, skew).eq_spec(&before.current_parameters),
        is_repeat(before, input, freq, repeats, feedback, skew, out, after),
    ensures
        after.ramp == before.ramp,
        after.previous_parameters == before.previous_parameters,
        after.current_parameters == requested(before, freq, repeats, feedback, skew),
        after.current_reader == before.current_reader,
{
}

} // verus!
