//! The op-amp distortion: an analog filter stage, an oversampled clipper and
//! a tone control.
pub mod clipper;
pub mod op_amp;
pub mod params;
pub mod shared;
pub mod smooth_parameters;
pub mod tone;

use crate::float_ext::{operators_exact, operators_total, FloatExt};
use crate::rat::clipper::{is_clipper_frame, is_clipper_step, is_new_clipper, Clipper};
use crate::rat::op_amp::{is_new_op_amp, is_op_amp_step, OpAmp};
use crate::rat::params::smooth::advanced;
use crate::rat::params::Params;
use crate::rat::tone::{is_new_tone, is_tone_step, Tone};
use crate::simd_type::{lanes_exact, lanes_total, SimdType};
use vstd::arithmetic::power2::is_pow2;
use vstd::prelude::*;
use vstd::std_specs::ops::MulSpec;

verus! {

/// The distortion engine: its three stages in the order of the signal.
pub struct Rat<V: SimdType> {
    pub op_amp: OpAmp<V::Scalar>,
    pub clipper: Clipper<V>,
    pub tone: Tone<V::Scalar>,
}

/// `out` is `input` through the tone stage at `filter`, at the gain `volume`.
pub open spec fn is_toned<T: FloatExt>(
    before: Tone<T>,
    input: T,
    filter: T,
    volume: T,
    out: T,
    after: Tone<T>,
) -> bool {
    exists|tone_output: T|
        {
            &&& is_tone_step(before, input, filter, tone_output, after)
            &&& out == tone_output.mul_spec(volume)
        }
}

/// `out` is `input` through the clipper, the tone stage and the volume.
pub open spec fn is_clipped_and_toned<V: SimdType>(
    before: Rat<V>,
    input: V::Scalar,
    filter: V::Scalar,
    volume: V::Scalar,
    out: V::Scalar,
    after: Rat<V>,
) -> bool {
    exists|clipper_output: V::Scalar|
        {
            &&& is_clipper_step(before.clipper, input, clipper_output, after.clipper)
            &&& is_toned(before.tone, clipper_output, filter, volume, out, after.tone)
        }
}

/// `out` is the output of the engine for one sample with the three control
/// values of that sample, and `after` the engine once it has been computed.
pub open spec fn is_rat_step<V: SimdType>(
    before: Rat<V>,
    input: V::Scalar,
    distortion: V::Scalar,
    filter: V::Scalar,
    volume: V::Scalar,
    out: V::Scalar,
    after: Rat<V>,
) -> bool {
    exists|op_amp_output: V::Scalar|
        {
            &&& is_op_amp_step(before.op_amp, input, distortion, op_amp_output, after.op_amp)
            &&& is_clipped_and_toned(before, op_amp_output, filter, volume, out, after)
        }
}

/// `engine` is the engine at rest for `sample_rate` over the clipper's two
/// coefficient tables.
pub open spec fn is_new_rat<V: SimdType>(
    sample_rate: V::Scalar,
    upsample_coefficients: Seq<V>,
    downsample_coefficients: Seq<V>,
    engine: Rat<V>,
) -> bool {
    &&& is_new_op_amp(sample_rate, engine.op_amp)
    &&& is_new_clipper(upsample_coefficients, downsample_coefficients, engine.clipper)
    &&& is_new_tone(sample_rate, engine.tone)
}

impl<V: SimdType> Rat<V> {
    /// The clipper's filters are usable and the lowpasses of the other two
    /// stages are consistent.
    pub open spec fn wf(&self) -> bool {
        &&& self.op_amp.wf()
        &&& self.clipper.wf()
        &&& self.tone.wf()
    }

    /// The engine at rest, with the clipper's two coefficient tables.
    pub fn new(
        sample_rate: V::Scalar,
        upsample_coefficients: Vec<V>,
        downsample_coefficients: Vec<V>,
    ) -> (engine: Self)
        requires
            operators_total::<V::Scalar>(),
            is_pow2(upsample_coefficients.len() as int),
            is_pow2(downsample_coefficients.len() as int),
        ensures
            engine.wf(),
            operators_exact::<V::Scalar>() ==> is_new_rat(
                sample_rate,
                upsample_coefficients@,
                downsample_coefficients@,
                engine,
            ),
    {
        Rat {
            op_amp: OpAmp::new(sample_rate),
            clipper: Clipper::new(upsample_coefficients, downsample_coefficients),
            tone: Tone::new(sample_rate),
        }
    }

    /// One sample of the effect. Each control advances by one sample; the
    /// input passes the op-amp stage at the distortion, the clipper, and the
    /// tone stage at the filter setting, and leaves at the volume.
    pub fn process(&mut self, input: V::Scalar, params: &mut Params<V::Scalar>) -> (out: V::Scalar)
        requires
            old(self).wf(),
            operators_total::<V::Scalar>(),
            lanes_total::<V>(),
        ensures
            final(self).wf(),
            is_clipper_frame(old(self).clipper, final(self).clipper),
            final(params).is_initialized == old(params).is_initialized,
            operators_exact::<V::Scalar>() && lanes_exact::<V>() ==> {
                &&& final(params).distortion == advanced(old(params).distortion)
                &&& final(params).filter == advanced(old(params).filter)
                &&& final(params).volume == advanced(old(params).volume)
                &&& is_rat_step(
                    *old(self),
                    input,
                    final(params).distortion.current,
                    final(params).filter.current,
                    final(params).volume.current,
                    out,
                    *final(self),
                )
            },
    {
        let distortion = params.distortion.next();
        let filter = params.filter.next();
        let volume = params.volume.next();

        let op_amp_output = self.op_amp.process(input, distortion);
        let clipper_output = self.clipper.process(op_amp_output);
        let tone_output = self.tone.process(clipper_output, filter);
        let out = tone_output * volume;
        proof {
            if operators_exact::<V::Scalar>() && lanes_exact::<V>() {
                assert(is_toned(old(self).tone, clipper_output, filter, volume, out, self.tone));
                assert(is_clipper_step(
                    old(self).clipper,
                    op_amp_output,
                    clipper_output,
                    self.clipper,
                ));
                assert(is_clipped_and_toned(
                    *old(self),
                    op_amp_output,
                    filter,
                    volume,
                    out,
                    *self,
                ));
            }
        }
        out
    }
}

} // verus!
