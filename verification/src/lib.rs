//! Single-sample audio effect engines, generic over the sample type: two
//! analog distortion emulations and a modulated multi-tap echo, with the
//! filters, smoothers, oversampler and delay line they are built from.
//!
//! The engines compute with the operators and elementary functions of a sample
//! type that the caller supplies ([`float_ext::FloatExt`] for scalars,
//! [`simd_type::SimdType`] for vectors of sub-samples). What is verified is
//! what the engines do with them: which values are combined, in which order,
//! which state is kept from one sample to the next, and that no index leaves
//! its buffer.
pub mod ds1;
pub mod float_ext;
pub mod oversample;
pub mod parameters;
pub mod rat;
pub mod repeat;
pub mod simd_type;
