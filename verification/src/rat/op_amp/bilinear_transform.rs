//! The bilinear transform of a third-order transfer function from the
//! s-domain to the z-domain.
use crate::float_ext::{is_literal, operators_exact, operators_total, FloatExt};
use vstd::prelude::*;
use vstd::std_specs::ops::{AddSpec, DivSpec, MulSpec, NegSpec, SubSpec};

verus! {

/// The scale factors of the transform, one per order, and the constants of
/// its formula.
pub struct BilinearTransform<T> {
    pub s: [T; 3],
    pub three: T,
    pub minus_three: T,
}

/// The scale factors for the sample period `t`: `t / 2`, `t^2 / 4`, `t^3 / 8`.
pub open spec fn scale_factors<T: FloatExt>(t: T, two: T, four: T, eight: T) -> Seq<T> {
    seq![
        t.div_spec(two),
        t.mul_spec(t).div_spec(four),
        t.mul_spec(t).mul_spec(t).div_spec(eight),
    ]
}

/// One coefficient set through the transform: the coefficients of the first
/// to third order are scaled, then combined with the binomial weights.
pub open spec fn transformed<T: FloatExt>(transform: BilinearTransform<T>, x: Seq<T>) -> Seq<T> {
    let x0 = x[0];
    let x1 = x[1].mul_spec(transform.s[0]);
    let x2 = x[2].mul_spec(transform.s[1]);
    let x3 = x[3].mul_spec(transform.s[2]);
    seq![
        x0.add_spec(x1).add_spec(x2).add_spec(x3),
        transform.minus_three.mul_spec(x0).sub_spec(x1).add_spec(x2).add_spec(
            transform.three.mul_spec(x3),
        ),
        transform.three.mul_spec(x0).sub_spec(x1).sub_spec(x2).add_spec(
            transform.three.mul_spec(x3),
        ),
        x0.neg_spec().add_spec(x1).sub_spec(x2).add_spec(x3),
    ]
}

/// Each entry of `x` divided by `by`.
pub open spec fn normalized<T: FloatExt>(x: Seq<T>, by: T) -> Seq<T> {
    seq![x[0].div_spec(by), x[1].div_spec(by), x[2].div_spec(by), x[3].div_spec(by)]
}

/// `transform` is the transform for `sample_rate`: its scale factors are those
/// of the sample period `1 / sample_rate`.
pub open spec fn is_new_transform<T: FloatExt>(
    sample_rate: T,
    transform: BilinearTransform<T>,
) -> bool {
    &&& is_literal("3", transform.three)
    &&& is_literal("-3", transform.minus_three)
    &&& exists|one: T, two: T, four: T, eight: T|
        {
            &&& is_literal("1", one)
            &&& is_literal("2", two)
            &&& is_literal("4", four)
            &&& is_literal("8", eight)
            &&& #[trigger] scale_factors(one.div_spec(sample_rate), two, four, eight)
                == transform.s@
        }
}

impl<T: FloatExt> BilinearTransform<T> {
    /// The transform for a sample rate.
    pub fn new(sample_rate: T) -> (transform: Self)
        requires
            operators_total::<T>(),
        ensures
            operators_exact::<T>() ==> is_new_transform(sample_rate, transform),
    {
        let one = T::literal("1");
        let two = T::literal("2");
        let four = T::literal("4");
        let eight = T::literal("8");
        let t = one / sample_rate;
        let transform = BilinearTransform {
            s: [t / two, t * t / four, t * t * t / eight],
            three: T::literal("3"),
            minus_three: T::literal("-3"),
        };
        proof {
            if operators_exact::<T>() {
                assert(scale_factors(one.div_spec(sample_rate), two, four, eight) =~= transform.s@);
            }
        }
        transform
    }

    /// One coefficient set from the s-domain to the z-domain.
    pub fn bilinear_transform(&self, x: [T; 4]) -> (out: [T; 4])
        requires
            operators_total::<T>(),
        ensures
            operators_exact::<T>() ==> out@ == transformed(*self, x@),
    {
        let x0 = x[0];
        let x1 = x[1] * self.s[0];
        let x2 = x[2] * self.s[1];
        let x3 = x[3] * self.s[2];
        let out = [
            x0 + x1 + x2 + x3,
            self.minus_three * x0 - x1 + x2 + self.three * x3,
            self.three * x0 - x1 - x2 + self.three * x3,
            x0.neg() + x1 - x2 + x3,
        ];
        proof {
            if operators_exact::<T>() {
                assert(out@ =~= transformed(*self, x@));
            }
        }
        out
    }

    /// Numerator and denominator from the s-domain to the z-domain, both
    /// divided by the leading coefficient of the transformed denominator.
    pub fn process(&self, coefficients: ([T; 4], [T; 4])) -> (out: ([T; 4], [T; 4]))
        requires
            operators_total::<T>(),
        ensures
            operators_exact::<T>() ==> {
                let b = transformed(*self, coefficients.0@);
                let a = transformed(*self, coefficients.1@);
                &&& out.0@ == normalized(b, a[0])
                &&& out.1@ == normalized(a, a[0])
            },
    {
        let b = self.bilinear_transform(coefficients.0);
        let a = self.bilinear_transform(coefficients.1);
        let lead = a[0];
        let out = (
            [b[0] / lead, b[1] / lead, b[2] / lead, b[3] / lead],
            [a[0] / lead, a[1] / lead, a[2] / lead, a[3] / lead],
        );
        proof {
            if operators_exact::<T>() {
                assert(out.0@ =~= normalized(b@, a@[0]));
                assert(out.1@ =~= normalized(a@, a@[0]));
            }
        }
        out
    }
}

} // verus!
