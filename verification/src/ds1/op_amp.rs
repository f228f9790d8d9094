//! The gain stage: a second-order section whose coefficients follow the
//! distortion control.
use crate::float_ext::{
    at_least, at_least_spec, is_ge, is_literal, operators_exact, operators_total, FloatExt,
};
use vstd::prelude::*;
use vstd::std_specs::ops::{AddSpec, DivSpec, MulSpec, SubSpec};

verus! {

/// The two registers and the constants of the network.
pub struct OpAmp<T> {
    pub z1: T,
    pub z2: T,
    pub sample_rate: T,
    pub one: T,
    pub two: T,
    pub dist_floor: T,
    pub pot: T,
    pub rb_floor: T,
    pub cz: T,
    pub cc: T,
}

/// The coefficients of one sample for a setting of the control, in the order
/// `a0`, `a1`, `a2`, `b1`, `b2`.
pub open spec fn op_amp_coefficients<T: FloatExt>(stage: OpAmp<T>, dist: T) -> (T, T, T, T, T) {
    let dist = at_least_spec(dist, stage.dist_floor);
    let rate = stage.sample_rate.mul_spec(stage.two);
    let squared = rate.mul_spec(rate);
    let rt = dist.mul_spec(stage.pot);
    let rb = stage.one.sub_spec(dist).mul_spec(stage.pot).add_spec(stage.rb_floor);
    let a = stage.one.div_spec(rt.mul_spec(rb).mul_spec(stage.cz).mul_spec(stage.cc));
    let c = stage.one.div_spec(rt.mul_spec(stage.cc)).add_spec(
        stage.one.div_spec(rb.mul_spec(stage.cz)),
    );
    let b = c.add_spec(stage.one.div_spec(rb.mul_spec(stage.cc)));
    let b0 = a.add_spec(c.mul_spec(rate)).add_spec(squared);
    let a1 = stage.two.mul_spec(a).sub_spec(stage.two.mul_spec(squared)).div_spec(b0);
    (
        a.add_spec(b.mul_spec(rate)).add_spec(squared).div_spec(b0),
        a1,
        a.sub_spec(b.mul_spec(rate)).add_spec(squared).div_spec(b0),
        a1,
        a.sub_spec(c.mul_spec(rate)).add_spec(squared).div_spec(b0),
    )
}

/// The output of the stage for one sample and the stage after it: a
/// second-order section in transposed direct form with the coefficients of
/// that sample.
pub open spec fn op_amp_step<T: FloatExt>(before: OpAmp<T>, input: T, dist: T) -> (T, OpAmp<T>) {
    let (a0, a1, a2, b1, b2) = op_amp_coefficients(before, dist);
    let y = input.mul_spec(a0).add_spec(before.z1);
    (
        y,
        OpAmp {
            z1: input.mul_spec(a1).add_spec(before.z2).sub_spec(b1.mul_spec(y)),
            z2: input.mul_spec(a2).sub_spec(b2.mul_spec(y)),
            ..before
        },
    )
}

/// `stage` is the stage at rest for `sample_rate`.
pub open spec fn is_new_op_amp<T: FloatExt>(sample_rate: T, stage: OpAmp<T>) -> bool {
    &&& stage.sample_rate == sample_rate
    &&& is_literal("0", stage.z1)
    &&& stage.z2 == stage.z1
    &&& is_literal("1", stage.one)
    &&& is_literal("2", stage.two)
    &&& is_literal("0.00001", stage.dist_floor)
    &&& is_literal("100000", stage.pot)
    &&& is_literal("4700", stage.rb_floor)
    &&& is_literal("0.000001", stage.cz)
    &&& is_literal("0.00000000025", stage.cc)
}

impl<T: FloatExt> OpAmp<T> {
    /// The stage at rest.
    pub fn new(sample_rate: T) -> (stage: Self)
        ensures
            is_new_op_amp(sample_rate, stage),
    {
        let zero = T::literal("0");
        OpAmp {
            z1: zero,
            z2: zero,
            sample_rate,
            one: T::literal("1"),
            two: T::literal("2"),
            dist_floor: T::literal("0.00001"),
            pot: T::literal("100000"),
            rb_floor: T::literal("4700"),
            cz: T::literal("0.000001"),
            cc: T::literal("0.00000000025"),
        }
    }

    /// One sample through the stage at the setting `dist`.
    pub fn process(&mut self, input: T, dist: T) -> (out: T)
        requires
            operators_total::<T>(),
        ensures
            operators_exact::<T>() ==> (out, *final(self)) == op_amp_step(*old(self), input, dist),
    {
        let dist = at_least(dist, self.dist_floor);
        let double_sample_rate = self.sample_rate * self.two;
        let squared_double_sample_rate = double_sample_rate * double_sample_rate;

        let rt = dist * self.pot;
        let rb = ((self.one - dist) * self.pot) + self.rb_floor;
        let cz = self.cz;
        let cc = self.cc;

        let a = self.one / (rt * rb * cz * cc);
        let c = self.one / (rt * cc) + self.one / (rb * cz);
        let b = c + self.one / (rb * cc);

        let b0 = a + c * double_sample_rate + squared_double_sample_rate;
        let a0 = (a + b * double_sample_rate + squared_double_sample_rate) / b0;
        let a1 = (self.two * a - self.two * squared_double_sample_rate) / b0;
        let a2 = (a - b * double_sample_rate + squared_double_sample_rate) / b0;
        let b1 = a1;
        let b2 = (a - c * double_sample_rate + squared_double_sample_rate) / b0;

        let y = input * a0 + self.z1;
        self.z1 = input * a1 + self.z2 - b1 * y;
        self.z2 = input * a2 - b2 * y;

        y
    }
}

/// A control below the floor, or one that does not compare with it, sounds as
/// the floor itself does: no setting of the control leaves a resistance of
/// zero to be inverted.
pub proof fn lemma_control_is_raised_to_the_floor<T: FloatExt>(stage: OpAmp<T>, dist: T)
    requires
        !is_ge(dist, stage.dist_floor),
        is_ge(stage.dist_floor, stage.dist_floor),
    ensures
        op_amp_coefficients(stage, dist) == op_amp_coefficients(stage, stage.dist_floor),
{
}

/// A control at or above the floor is taken as it is.
pub proof fn lemma_control_above_the_floor_is_kept<T: FloatExt>(stage: OpAmp<T>, dist: T)
    requires
        is_ge(dist, stage.dist_floor),
    ensures
        at_least_spec(dist, stage.dist_floor) == dist,
{
}

} // verus!
