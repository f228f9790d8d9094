//! A whole-numbered control: its value, its range and how it is shown.
use crate::float_ext::{operators_exact, operators_total, FloatExt};
use crate::parameters::int_range::IntRange;
use vstd::prelude::*;
use vstd::string::{to_string_from_display_ensures, StringExecFns};

verus! {

/// The control.
pub struct IntParam {
    pub name: &'static str,
    pub value: i32,
    pub default: i32,
    pub index: i32,
    pub range: IntRange,
    pub unit: &'static str,
    pub labels: Option<&'static [&'static str]>,
}

impl IntParam {
    /// The range is usable, value and default lie where the range can measure
    /// them, and a value that is shown by a label has one.
    pub open spec fn wf(&self) -> bool {
        &&& self.range.wf()
        &&& self.range.holds(self.value)
        &&& self.range.holds(self.default)
        &&& match self.labels {
            Some(labels) => 0 <= self.value < labels@.len(),
            None => true,
        }
    }

    /// A control at its default, without a unit and without labels.
    pub fn new(name: &'static str, default: i32, index: i32, range: IntRange) -> (param: Self)
        ensures
            param.name == name,
            param.value == default,
            param.default == default,
            param.index == index,
            param.range == range,
            param.unit@ == Seq::<char>::empty(),
            param.labels.is_none(),
    {
        let unit = "";
        proof {
            reveal_strlit("");
        }
        IntParam { name, value: default, default, index, range, unit, labels: None }
    }

    /// The same control with a unit.
    pub fn with_unit(self, unit: &'static str) -> (param: Self)
        ensures
            param == (IntParam { unit, ..self }),
    {
        let mut param = self;
        param.unit = unit;
        param
    }

    /// The names of the options, or one empty name for a linear range.
    pub fn get_options(&self) -> (options: Vec<String>)
        ensures
            match self.range {
                IntRange::Options { names } => {
                    &&& options.len() == names.len()
                    &&& forall|i: int| 0 <= i < names.len() ==> options[i]@ == names[i]@
                },
                IntRange::Linear { min, max } => {
                    &&& options.len() == 1
                    &&& options[0]@ == Seq::<char>::empty()
                },
            },
    {
        let mut options: Vec<String> = Vec::new();
        match &self.range {
            IntRange::Options { names } => {
                let mut i: usize = 0;
                while i < names.len()
                    invariant
                        i <= names.len(),
                        options.len() == i,
                        forall|j: int| 0 <= j < i ==> options[j]@ == names[j]@,
                    decreases names.len() - i,
                {
                    options.push(names[i].to_owned());
                    i = i + 1;
                }
            },
            IntRange::Linear { min, max } => {
                proof {
                    reveal_strlit("");
                }
                options.push("".to_owned());
            },
        }
        options
    }

    /// The position of the control among the controls of its effect.
    pub fn get_index(&self) -> (index: i32)
        ensures
            index == self.index,
    {
        self.index
    }

    /// The value.
    pub fn get_value(&self) -> (value: i32)
        ensures
            value == self.value,
    {
        self.value
    }

    /// The value on the unit interval.
    pub fn get_normalized_value<T: FloatExt>(&self) -> (out: T)
        requires
            operators_total::<T>(),
            self.range.wf(),
            self.range.holds(self.value),
        ensures
            operators_exact::<T>() ==> self.range.is_normalized(self.value, out),
    {
        self.preview_normalized_value(self.get_value())
    }

    /// The value that `value` on the unit interval stands for.
    pub fn preview_value<T: FloatExt>(&self, value: T) -> (out: i32)
        requires
            operators_total::<T>(),
            self.range.wf(),
        ensures
            operators_exact::<T>() ==> self.range.is_unnormalized(value, out),
    {
        self.range.unnormalize(value)
    }

    /// `value` on the unit interval.
    pub fn preview_normalized_value<T: FloatExt>(&self, value: i32) -> (out: T)
        requires
            operators_total::<T>(),
            self.range.wf(),
            self.range.holds(value),
        ensures
            operators_exact::<T>() ==> self.range.is_normalized(value, out),
    {
        self.range.normalize(value)
    }

    /// Sets the value.
    pub fn set_plain_value(&mut self, value: i32)
        ensures
            *final(self) == (IntParam { value, ..*old(self) }),
    {
        self.value = value;
    }

    /// Sets the value from the unit interval.
    pub fn set_normalized_value<T: FloatExt>(&mut self, value: T)
        requires
            operators_total::<T>(),
            old(self).range.wf(),
        ensures
            operators_exact::<T>() ==> old(self).range.is_unnormalized(value, final(self).value),
            *final(self) == (IntParam { value: final(self).value, ..*old(self) }),
    {
        self.value = self.preview_value(value);
    }

    /// The value as it is shown: its label where the control has labels, and
    /// its digits otherwise, followed by the unit where that is asked for.
    pub fn get_display_value(&self, include_unit: bool) -> (text: String)
        requires
            self.labels matches Some(labels) ==> 0 <= self.value < labels@.len(),
        ensures
            match self.labels {
                Some(labels) => text@ == labels@[self.value as int]@,
                None => exists|digits: String|
                    {
                        &&& #[trigger] to_string_from_display_ensures::<i32>(&self.value, digits)
                        &&& text@ == if include_unit {
                            digits@ + self.unit@
                        } else {
                            digits@
                        }
                    },
            },
    {
        match self.labels {
            Some(labels) => labels[self.value as usize].to_owned(),
            None => {
                let digits = self.value.to_string();
                let mut text = digits.clone();
                if include_unit {
                    text.append(self.unit);
                }
                text
            },
        }
    }

    /// The default on the unit interval.
    pub fn get_default_normalized_value<T: FloatExt>(&self) -> (out: T)
        requires
            operators_total::<T>(),
            self.range.wf(),
            self.range.holds(self.default),
        ensures
            operators_exact::<T>() ==> self.range.is_normalized(self.default, out),
    {
        self.preview_normalized_value(self.default)
    }
}

} // verus!
