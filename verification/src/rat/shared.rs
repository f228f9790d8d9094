//! What the stages share.
pub mod one_pole_filter;
