//! The analog filter stage: the transfer function of the op-amp network is
//! derived from the distortion control for every sample, transformed to the
//! z-domain, realised by a third-order filter and corrected for the
//! bandwidth of the op-amp.
pub mod bilinear_transform;
pub mod op_amp_correction;
pub mod third_order_iir_filter;

use crate::float_ext::{at_least, at_least_spec, is_literal, operators_exact, operators_total, FloatExt};
use crate::rat::op_amp::bilinear_transform::{
    is_new_transform, normalized, transformed, BilinearTransform,
};
use crate::rat::op_amp::op_amp_correction::{
    is_correction_cutoff, is_new_correction, OpAmpCorrection,
};
use crate::rat::op_amp::third_order_iir_filter::{
    iir_output, iir_registers, is_new_iir, ThirdOrderIIRFilter,
};
use crate::rat::shared::one_pole_filter::is_one_pole_step;
use vstd::prelude::*;
use vstd::std_specs::ops::{AddSpec, MulSpec};

verus! {

/// The stage: its three parts and the constants of the network.
pub struct OpAmp<T> {
    pub op_amp: ThirdOrderIIRFilter<T>,
    pub bilinear_transform: BilinearTransform<T>,
    pub op_amp_correction: OpAmpCorrection<T>,
    pub r1: T,
    pub c1: T,
    pub z1_b0: T,
    pub z1_b1: T,
    pub z1_a0: T,
    pub z1_a1: T,
    pub one: T,
}

/// The resistance that the distortion control stands for: `distortion * r1`,
/// and one where that is less.
pub open spec fn feedback_resistance<T: FloatExt>(stage: OpAmp<T>, distortion: T) -> T {
    at_least_spec(distortion.mul_spec(stage.r1), stage.one)
}

/// The denominator of the transfer function in the s-domain, highest order
/// first.
pub open spec fn s_domain_a<T: FloatExt>(stage: OpAmp<T>, distortion: T) -> Seq<T> {
    let z2_a0 = feedback_resistance(stage, distortion).mul_spec(stage.c1);
    seq![
        stage.z1_b0.mul_spec(z2_a0),
        stage.z1_b0.add_spec(stage.z1_b1.mul_spec(z2_a0)),
        stage.z1_b1.add_spec(z2_a0),
        stage.one,
    ]
}

/// The numerator of the transfer function in the s-domain, highest order
/// first.
pub open spec fn s_domain_b<T: FloatExt>(stage: OpAmp<T>, distortion: T) -> Seq<T> {
    let z2_b0 = feedback_resistance(stage, distortion);
    let z2_a0 = z2_b0.mul_spec(stage.c1);
    let a = s_domain_a(stage, distortion);
    seq![
        a[0],
        a[1].add_spec(stage.z1_a0.mul_spec(z2_b0)),
        stage.z1_a1.mul_spec(z2_b0).add_spec(stage.z1_b1).add_spec(z2_a0),
        stage.one,
    ]
}

/// The numerator in the z-domain, normalised.
pub open spec fn z_domain_b<T: FloatExt>(stage: OpAmp<T>, distortion: T) -> Seq<T> {
    normalized(
        transformed(stage.bilinear_transform, s_domain_b(stage, distortion)),
        transformed(stage.bilinear_transform, s_domain_a(stage, distortion))[0],
    )
}

/// The denominator in the z-domain, normalised.
pub open spec fn z_domain_a<T: FloatExt>(stage: OpAmp<T>, distortion: T) -> Seq<T> {
    normalized(
        transformed(stage.bilinear_transform, s_domain_a(stage, distortion)),
        transformed(stage.bilinear_transform, s_domain_a(stage, distortion))[0],
    )
}

/// `out` is the output of the stage for one sample, and `after` the stage once
/// it has been computed: the third-order filter runs with the z-domain
/// coefficients for `distortion`, and its output passes the bandwidth
/// correction.
pub open spec fn is_op_amp_step<T: FloatExt>(
    before: OpAmp<T>,
    input: T,
    distortion: T,
    out: T,
    after: OpAmp<T>,
) -> bool {
    let ideal = iir_output(before.op_amp.z@, input, z_domain_b(before, distortion));
    &&& after.op_amp.z@ == iir_registers(
        before.op_amp.z@,
        input,
        ideal,
        z_domain_b(before, distortion),
        z_domain_a(before, distortion),
    )
    &&& exists|cutoff: T|
        {
            &&& is_correction_cutoff(before.op_amp_correction, distortion, cutoff)
            &&& #[trigger] is_one_pole_step(
                before.op_amp_correction.filter,
                ideal,
                cutoff,
                after.op_amp_correction.filter,
            )
        }
    &&& out == after.op_amp_correction.filter.z
    &&& after == (OpAmp {
        op_amp: after.op_amp,
        op_amp_correction: OpAmpCorrection {
            filter: after.op_amp_correction.filter,
            ..before.op_amp_correction
        },
        ..before
    })
}

/// `stage` is the stage at rest for `sample_rate`.
pub open spec fn is_new_op_amp<T: FloatExt>(sample_rate: T, stage: OpAmp<T>) -> bool {
    &&& is_new_iir(stage.op_amp)
    &&& is_new_transform(sample_rate, stage.bilinear_transform)
    &&& is_new_correction(sample_rate, stage.op_amp_correction)
    &&& is_literal("100000", stage.r1)
    &&& is_literal("1e-10", stage.c1)
    &&& is_literal("2.72149e-7", stage.z1_b0)
    &&& is_literal("0.0027354", stage.z1_b1)
    &&& is_literal("6.27638e-9", stage.z1_a0)
    &&& is_literal("0.0000069", stage.z1_a1)
    &&& is_literal("1", stage.one)
}

impl<T: FloatExt> OpAmp<T> {
    /// The bandwidth correction is consistent.
    pub open spec fn wf(&self) -> bool {
        self.op_amp_correction.wf()
    }

    /// The stage at rest.
    pub fn new(sample_rate: T) -> (stage: Self)
        requires
            operators_total::<T>(),
        ensures
            stage.wf(),
            operators_exact::<T>() ==> is_new_op_amp(sample_rate, stage),
    {
        OpAmp {
            op_amp: ThirdOrderIIRFilter::new(),
            bilinear_transform: BilinearTransform::new(sample_rate),
            op_amp_correction: OpAmpCorrection::new(sample_rate),
            r1: T::literal("100000"),
            c1: T::literal("1e-10"),
            z1_b0: T::literal("2.72149e-7"),
            z1_b1: T::literal("0.0027354"),
            z1_a0: T::literal("6.27638e-9"),
            z1_a1: T::literal("0.0000069"),
            one: T::literal("1"),
        }
    }

    /// One sample through the stage.
    pub fn process(&mut self, input: T, distortion: T) -> (out: T)
        requires
            old(self).wf(),
            operators_total::<T>(),
        ensures
            final(self).wf(),
            operators_exact::<T>() ==> is_op_amp_step(
                *old(self),
                input,
                distortion,
                out,
                *final(self),
            ),
    {
        let s_domain_coefficients = self.get_s_domain_coefficients(distortion);
        let z_domain_coefficients = self.bilinear_transform.process(s_domain_coefficients);
        let ideal_op_amp_output = self.op_amp.process(input, z_domain_coefficients);
        self.op_amp_correction.process(ideal_op_amp_output, distortion)
    }

    /// Numerator and denominator of the transfer function in the s-domain for
    /// a setting of the distortion control.
    pub fn get_s_domain_coefficients(&self, distortion: T) -> (out: ([T; 4], [T; 4]))
        requires
            operators_total::<T>(),
        ensures
            operators_exact::<T>() ==> {
                &&& out.0@ == s_domain_b(*self, distortion)
                &&& out.1@ == s_domain_a(*self, distortion)
            },
    {
        let z2_b0 = at_least(distortion * self.r1, self.one);
        let z2_a0 = z2_b0 * self.c1;

        let a0 = self.z1_b0 * z2_a0;
        let a1 = self.z1_b0 + self.z1_b1 * z2_a0;
        let a2 = self.z1_b1 + z2_a0;
        let b0 = a0;
        let b1 = a1 + self.z1_a0 * z2_b0;
        let b2 = self.z1_a1 * z2_b0 + self.z1_b1 + z2_a0;

        let out = ([b0, b1, b2, self.one], [a0, a1, a2, self.one]);
        proof {
            if operators_exact::<T>() {
                assert(out.1@ =~= s_domain_a(*self, distortion));
                assert(out.0@ =~= s_domain_b(*self, distortion));
            }
        }
        out
    }
}

} // verus!
