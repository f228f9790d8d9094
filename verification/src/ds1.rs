//! The transistor-and-diode distortion: a booster, an op-amp stage, an
//! oversampled clipper and a tone control.
pub mod clipper;
pub mod op_amp;
pub mod shared;
pub mod tone;
pub mod transistor_booster;

use crate::ds1::clipper::{is_clipper_step, is_new_clipper, Clipper};
use crate::ds1::op_amp::{is_new_op_amp, op_amp_step, OpAmp};
use crate::ds1::tone::{is_new_tone, is_tone_step, Tone};
use crate::ds1::transistor_booster::{is_booster_step, is_new_booster, TransistorBooster};
use crate::float_ext::{operators_exact, operators_total, FloatExt};
use crate::simd_type::{lanes_exact, lanes_total, SimdType};
use crate::oversample::FIR_LENGTH;
use vstd::prelude::*;
use vstd::std_specs::ops::MulSpec;

verus! {

/// The distortion engine: its four stages in the order of the signal, and the
/// gain of the booster.
pub struct DS1<V: SimdType> {
    pub transistor_booster: TransistorBooster<V::Scalar>,
    pub op_amp: OpAmp<V::Scalar>,
    pub clipper: Clipper<V>,
    pub tone: Tone<V::Scalar>,
    pub booster_gain: V::Scalar,
}

/// `out` is `input` through the clipper and the tone stage at `level`.
pub open spec fn is_clipped_and_toned<V: SimdType>(
    before: DS1<V>,
    input: V::Scalar,
    tone: V::Scalar,
    level: V::Scalar,
    out: V::Scalar,
    after: DS1<V>,
) -> bool {
    exists|clip_output: V::Scalar|
        {
            &&& is_clipper_step(before.clipper, input, clip_output, after.clipper)
            &&& exists|tone_output: V::Scalar|
                {
                    &&& is_tone_step(before.tone, clip_output, tone, tone_output, after.tone)
                    &&& out == tone_output.mul_spec(level)
                }
        }
}

/// `out` is the output of the engine for one sample, and `after` the engine
/// once it has been computed.
pub open spec fn is_ds1_step<V: SimdType>(
    before: DS1<V>,
    input: V::Scalar,
    tone: V::Scalar,
    level: V::Scalar,
    dist: V::Scalar,
    out: V::Scalar,
    after: DS1<V>,
) -> bool {
    exists|booster_output: V::Scalar|
        {
            &&& is_booster_step(
                before.transistor_booster,
                input,
                before.booster_gain,
                booster_output,
                after.transistor_booster,
            )
            &&& after.op_amp == op_amp_step(before.op_amp, booster_output, dist).1
            &&& is_clipped_and_toned(
                before,
                op_amp_step(before.op_amp, booster_output, dist).0,
                tone,
                level,
                out,
                after,
            )
            &&& after.booster_gain == before.booster_gain
        }
}

/// `engine` is the engine at rest for `sample_rate` over the two coefficient
/// tables of the oversampler.
pub open spec fn is_new_ds1<V: SimdType>(
    sample_rate: V::Scalar,
    upsample_coefficients: Seq<V>,
    downsample_coefficients: Seq<V>,
    engine: DS1<V>,
) -> bool {
    &&& is_new_booster(sample_rate, engine.transistor_booster)
    &&& is_new_op_amp(sample_rate, engine.op_amp)
    &&& is_new_clipper(sample_rate, upsample_coefficients, downsample_coefficients, engine.clipper)
    &&& is_new_tone(sample_rate, engine.tone)
    &&& call_ensures(V::Scalar::literal, ("63.095734",), engine.booster_gain)
}

impl<V: SimdType> DS1<V> {
    /// The clipper's oversampler is usable.
    pub open spec fn wf(&self) -> bool {
        self.clipper.wf()
    }

    /// The engine at rest, with the two coefficient tables of the
    /// oversampler, each sixteen vectors long.
    pub fn new(
        sample_rate: V::Scalar,
        upsample_coefficients: Vec<V>,
        downsample_coefficients: Vec<V>,
    ) -> (engine: Self)
        requires
            upsample_coefficients.len() == FIR_LENGTH,
            downsample_coefficients.len() == FIR_LENGTH,
        ensures
            engine.wf(),
            is_new_ds1(sample_rate, upsample_coefficients@, downsample_coefficients@, engine),
    {
        DS1 {
            transistor_booster: TransistorBooster::new(sample_rate),
            op_amp: OpAmp::new(sample_rate),
            clipper: Clipper::new(sample_rate, upsample_coefficients, downsample_coefficients),
            tone: Tone::new(sample_rate),
            booster_gain: V::Scalar::literal("63.095734"),
        }
    }

    /// One sample of the effect: the input passes the booster, the op-amp
    /// stage at `dist`, the clipper, and the tone stage at `tone`, and leaves
    /// at `level`.
    pub fn process(
        &mut self,
        input: V::Scalar,
        tone: V::Scalar,
        level: V::Scalar,
        dist: V::Scalar,
    ) -> (out: V::Scalar)
        requires
            old(self).wf(),
            operators_total::<V::Scalar>(),
            lanes_total::<V>(),
        ensures
            final(self).wf(),
            operators_exact::<V::Scalar>() && lanes_exact::<V>() ==> is_ds1_step(
                *old(self),
                input,
                tone,
                level,
                dist,
                out,
                *final(self),
            ),
    {
        let booster_output = self.transistor_booster.process(input, self.booster_gain);
        let op_amp_output = self.op_amp.process(booster_output, dist);
        let clip_output = self.clipper.process(op_amp_output);
        let tone_output = self.tone.process(clip_output, tone);

        let out = tone_output * level;
        proof {
            if operators_exact::<V::Scalar>() && lanes_exact::<V>() {
                assert(is_tone_step(old(self).tone, clip_output, tone, tone_output, self.tone));
                assert(is_clipper_step(
                    old(self).clipper,
                    op_amp_output,
                    clip_output,
                    self.clipper,
                ));
                assert(is_clipped_and_toned(*old(self), op_amp_output, tone, level, out, *self));
                assert(is_booster_step(
                    old(self).transistor_booster,
                    input,
                    old(self).booster_gain,
                    booster_output,
                    self.transistor_booster,
                ));
            }
        }
        out
    }
}

} // verus!
