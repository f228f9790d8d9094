//! The range of a whole-numbered control, and its mapping to and from the
//! unit interval.
use crate::float_ext::{operators_exact, operators_total, FloatExt};
use vstd::prelude::*;
use vstd::std_specs::ops::{DivSpec, MulSpec};

verus! {

/// Either the whole numbers from `min` to `max`, or the positions in a list of
/// named options.
pub enum IntRange {
    Linear { min: i32, max: i32 },
    Options { names: Vec<&'static str> },
}

/// `k + offset`, held inside the range of `i32`.
pub open spec fn saturated_sum(k: i32, offset: i32) -> int {
    if k + offset > i32::MAX {
        i32::MAX as int
    } else if k + offset < i32::MIN {
        i32::MIN as int
    } else {
        k + offset
    }
}

impl IntRange {
    /// A linear range is no wider than `i32` can hold, and a list of options
    /// is not empty.
    pub open spec fn wf(&self) -> bool {
        match *self {
            IntRange::Linear { min, max } => i32::MIN <= max - min <= i32::MAX,
            IntRange::Options { names } => names.len() > 0,
        }
    }

    /// The distance of `value` from the lower end fits in an `i32`.
    pub open spec fn holds(&self, value: i32) -> bool {
        match *self {
            IntRange::Linear { min, max } => i32::MIN <= value - min <= i32::MAX,
            IntRange::Options { names } => true,
        }
    }

    /// `out` is `value` on the unit interval: its distance from the lower end
    /// over the width of the range, each as `T` gives it.
    pub open spec fn is_normalized<T: FloatExt>(&self, value: i32, out: T) -> bool {
        exists|distance: T, width: T|
            {
                &&& match *self {
                    IntRange::Linear { min, max } => {
                        &&& call_ensures(T::from_i32, ((value - min) as i32,), distance)
                        &&& call_ensures(T::from_i32, ((max - min) as i32,), width)
                    },
                    IntRange::Options { names } => {
                        &&& call_ensures(T::from_i32, (value,), distance)
                        &&& call_ensures(T::from_usize, ((names.len() - 1) as usize,), width)
                    },
                }
                &&& out == distance.div_spec(width)
            }
    }

    /// `out` is the whole number at `value` on the unit interval: `value`
    /// times the width of the range, rounded, from the lower end, and held
    /// inside the range of `i32`.
    pub open spec fn is_unnormalized<T: FloatExt>(&self, value: T, out: i32) -> bool {
        exists|width: T, rounded: T, k: i32|
            {
                &&& match *self {
                    IntRange::Linear { min, max } => {
                        &&& call_ensures(T::from_i32, ((max - min) as i32,), width)
                        &&& out == saturated_sum(k, min)
                    },
                    IntRange::Options { names } => {
                        &&& call_ensures(T::from_usize, ((names.len() - 1) as usize,), width)
                        &&& out == k
                    },
                }
                &&& call_ensures(T::round, (value.mul_spec(width),), rounded)
                &&& call_ensures(T::to_i32, (rounded,), k)
            }
    }

    /// `value` on the unit interval.
    pub fn normalize<T: FloatExt>(&self, value: i32) -> (out: T)
        requires
            operators_total::<T>(),
            self.wf(),
            self.holds(value),
        ensures
            operators_exact::<T>() ==> self.is_normalized(value, out),
    {
        match self {
            IntRange::Linear { min, max } => T::from_i32(value - *min) / T::from_i32(*max - *min),
            IntRange::Options { names } => T::from_i32(value) / T::from_usize(names.len() - 1),
        }
    }

    /// The whole number at `value` on the unit interval.
    pub fn unnormalize<T: FloatExt>(&self, value: T) -> (out: i32)
        requires
            operators_total::<T>(),
            self.wf(),
        ensures
            operators_exact::<T>() ==> self.is_unnormalized(value, out),
    {
        match self {
            IntRange::Linear { min, max } => {
                let width = T::from_i32(*max - *min);
                let rounded = (value * width).round();
                let k = rounded.to_i32();
                match k.checked_add(*min) {
                    Some(sum) => sum,
                    None => if *min > 0 {
                        i32::MAX
                    } else {
                        i32::MIN
                    },
                }
            },
            IntRange::Options { names } => {
                let width = T::from_usize(names.len() - 1);
                let rounded = (value * width).round();
                rounded.to_i32()
            },
        }
    }
}

} // verus!
