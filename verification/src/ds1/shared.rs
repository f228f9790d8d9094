//! What the stages share.
pub mod lowpass_filter;
