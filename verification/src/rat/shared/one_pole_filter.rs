//! A one-pole lowpass whose cutoff may change with every sample.
use crate::float_ext::{is_literal, operators_exact, operators_total, FloatExt};
use vstd::prelude::*;
use vstd::std_specs::cmp::PartialEqSpec;
use vstd::std_specs::ops::{AddSpec, DivSpec, MulSpec, NegSpec, SubSpec};

verus! {

/// The filter: `t` is `-2 pi / sample_rate`, `z` the register, and `b1` the
/// pole that was computed for the cutoff `prev_freq`, if one was computed.
pub struct OnePoleFilter<T> {
    pub t: T,
    pub z: T,
    pub prev_freq: Option<T>,
    pub b1: T,
    pub one: T,
}

/// `pole` is a pole for the cutoff `freq`: a value that `exp` gave for
/// `freq * t`.
pub open spec fn is_pole<T: FloatExt>(t: T, freq: T, pole: T) -> bool {
    call_ensures(T::exp, (freq.mul_spec(t),), pole)
}

/// The register after one sample with the pole `b1`: `input * (1 - b1) + z * b1`.
pub open spec fn one_pole_register<T: FloatExt>(one: T, z: T, b1: T, input: T) -> T {
    input.mul_spec(one.sub_spec(b1)).add_spec(z.mul_spec(b1))
}

/// The cutoff that the filter remembers after a sample at `freq`: the one it
/// remembered before where `freq` equals it, and `freq` otherwise.
pub open spec fn remembered<T: FloatExt>(before: OnePoleFilter<T>, freq: T) -> T {
    match before.prev_freq {
        Some(prev) => if freq.eq_spec(&prev) {
            prev
        } else {
            freq
        },
        None => freq,
    }
}

/// The filter remembers a cutoff that `freq` equals, so that it holds the pole
/// for it already.
pub open spec fn holds_the_pole<T: FloatExt>(before: OnePoleFilter<T>, freq: T) -> bool {
    match before.prev_freq {
        Some(prev) => freq.eq_spec(&prev),
        None => false,
    }
}

/// `after` is the filter once `input` has been filtered at `freq`.
///
/// The pole is a pole for the cutoff that the filter remembers, which is
/// `freq` or equal to it; it is computed anew unless `freq` equals the cutoff
/// of the sample before.
pub open spec fn is_one_pole_step<T: FloatExt>(
    before: OnePoleFilter<T>,
    input: T,
    freq: T,
    after: OnePoleFilter<T>,
) -> bool {
    &&& after.t == before.t
    &&& after.one == before.one
    &&& after.prev_freq == Some(remembered(before, freq))
    &&& is_pole(before.t, remembered(before, freq), after.b1)
    &&& holds_the_pole(before, freq) ==> after.b1 == before.b1
    &&& after.z == one_pole_register(before.one, before.z, after.b1, input)
}

/// `filter` is a filter at rest for `sample_rate`: `t` is `-2 pi / sample_rate`,
/// the register is zero and no pole has been computed.
pub open spec fn is_new_one_pole<T: FloatExt>(sample_rate: T, filter: OnePoleFilter<T>) -> bool {
    &&& is_literal("1", filter.one)
    &&& is_literal("0", filter.z)
    &&& filter.prev_freq.is_none()
    &&& filter.b1 == filter.z
    &&& exists|tau: T| #[trigger]
        is_literal("6.28318530717958647692528676655900577", tau) && filter.t
            == filter.one.div_spec(sample_rate).mul_spec(tau.neg_spec())
}

impl<T: FloatExt> OnePoleFilter<T> {
    /// The pole that the filter holds is a pole for the cutoff it remembers.
    pub open spec fn wf(&self) -> bool {
        operators_exact::<T>() ==> match self.prev_freq {
            Some(prev) => is_pole(self.t, prev, self.b1),
            None => true,
        }
    }

    /// A filter at rest.
    pub fn new(sample_rate: T) -> (filter: Self)
        requires
            operators_total::<T>(),
        ensures
            filter.wf(),
            operators_exact::<T>() ==> is_new_one_pole(sample_rate, filter),
    {
        let one = T::literal("1");
        let zero = T::literal("0");
        let tau = T::literal("6.28318530717958647692528676655900577");
        assert(is_literal("6.28318530717958647692528676655900577", tau));
        OnePoleFilter { t: one / sample_rate * tau.neg(), z: zero, prev_freq: None, b1: zero, one }
    }

    /// Filters one sample with the cutoff `freq`; the pole is computed anew
    /// only when the cutoff has changed.
    pub fn process(&mut self, input: T, freq: T) -> (out: T)
        requires
            old(self).wf(),
            operators_total::<T>(),
        ensures
            final(self).wf(),
            operators_exact::<T>() ==> is_one_pole_step(*old(self), input, freq, *final(self)),
            out == final(self).z,
    {
        let cached = match self.prev_freq {
            Some(prev) => freq == prev,
            None => false,
        };
        if !cached {
            self.b1 = (freq * self.t).exp();
            self.prev_freq = Some(freq);
        }
        let a0 = self.one - self.b1;
        self.z = input * a0 + self.z * self.b1;
        self.z
    }
}

/// Whatever the filter has remembered, the pole of a sample is a pole for a
/// cutoff that equals the cutoff of that sample: remembering the last cutoff
/// changes no result.
pub proof fn lemma_pole_is_for_the_cutoff<T: FloatExt>(
    before: OnePoleFilter<T>,
    input: T,
    freq: T,
    after: OnePoleFilter<T>,
)
    requires
        is_one_pole_step(before, input, freq, after),
    ensures
        exists|cutoff: T|
            {
                &&& cutoff == freq || freq.eq_spec(&cutoff)
                &&& #[trigger] is_pole(before.t, cutoff, after.b1)
                &&& after.z == one_pole_register(before.one, before.z, after.b1, input)
            },
{
    assert(is_pole(before.t, remembered(before, freq), after.b1));
}

} // verus!
