//! The whole-numbered controls that a host sees.
pub mod int_param;
pub mod int_range;
pub mod knob_size;
