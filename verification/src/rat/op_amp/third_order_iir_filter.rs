//! A third-order filter in transposed direct form, whose coefficients may
//! change with every sample.
use crate::float_ext::{is_literal, operators_exact, operators_total, FloatExt};
use vstd::prelude::*;
use vstd::std_specs::ops::{AddSpec, MulSpec, SubSpec};

verus! {

/// The three feedback registers.
pub struct ThirdOrderIIRFilter<T> {
    pub z: [T; 3],
}

/// The output of one sample: `x * b0 + z0`.
pub open spec fn iir_output<T: FloatExt>(z: Seq<T>, x: T, b: Seq<T>) -> T {
    x.mul_spec(b[0]).add_spec(z[0])
}

/// The registers after one sample with output `y`:
/// `z0' = x * b1 - y * a1 + z1`, `z1' = x * b2 - y * a2 + z2`,
/// `z2' = x * b3 - y * a3`.
pub open spec fn iir_registers<T: FloatExt>(z: Seq<T>, x: T, y: T, b: Seq<T>, a: Seq<T>) -> Seq<T> {
    seq![
        x.mul_spec(b[1]).sub_spec(y.mul_spec(a[1])).add_spec(z[1]),
        x.mul_spec(b[2]).sub_spec(y.mul_spec(a[2])).add_spec(z[2]),
        x.mul_spec(b[3]).sub_spec(y.mul_spec(a[3])),
    ]
}

/// `filter` is a filter with its registers at zero.
pub open spec fn is_new_iir<T: FloatExt>(filter: ThirdOrderIIRFilter<T>) -> bool {
    &&& is_literal("0", filter.z[0])
    &&& filter.z[1] == filter.z[0]
    &&& filter.z[2] == filter.z[0]
}

impl<T: FloatExt> ThirdOrderIIRFilter<T> {
    /// A filter with its registers at zero.
    pub fn new() -> (filter: Self)
        ensures
            is_new_iir(filter),
    {
        let zero = T::literal("0");
        ThirdOrderIIRFilter { z: [zero, zero, zero] }
    }

    /// Filters one sample with the numerator `b` and the denominator `a`.
    pub fn process(&mut self, x: T, coefficients: ([T; 4], [T; 4])) -> (y: T)
        requires
            operators_total::<T>(),
        ensures
            operators_exact::<T>() ==> {
                &&& y == iir_output(old(self).z@, x, coefficients.0@)
                &&& final(self).z@ == iir_registers(
                    old(self).z@,
                    x,
                    y,
                    coefficients.0@,
                    coefficients.1@,
                )
            },
    {
        let (b, a) = coefficients;
        let y = x * b[0] + self.z[0];
        let z0 = x * b[1] - y * a[1] + self.z[1];
        let z1 = x * b[2] - y * a[2] + self.z[2];
        let z2 = x * b[3] - y * a[3];
        self.z = [z0, z1, z2];
        proof {
            if operators_exact::<T>() {
                assert(self.z@ =~= iir_registers(old(self).z@, x, y, b@, a@));
            }
        }
        y
    }
}

} // verus!
