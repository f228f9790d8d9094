//! The sizes a knob for a whole-numbered control is drawn in.
use vstd::prelude::*;

verus! {

/// The size of a knob.
pub enum ParamIntKnobSize {
    Small,
    Regular,
    Large,
}

impl ParamIntKnobSize {
    /// The diameter of the knob in pixels.
    pub open spec fn pixels(&self) -> int {
        match self {
            ParamIntKnobSize::Small => 32,
            ParamIntKnobSize::Regular => 44,
            ParamIntKnobSize::Large => 68,
        }
    }

    /// The diameter of the knob in pixels.
    pub fn get_value(&self) -> (diameter: u16)
        ensures
            diameter == self.pixels(),
    {
        match self {
            ParamIntKnobSize::Small => 32,
            ParamIntKnobSize::Regular => 44,
            ParamIntKnobSize::Large => 68,
        }
    }
}

} // verus!
