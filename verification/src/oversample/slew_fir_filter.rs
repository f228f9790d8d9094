//! The interpolating filter of the oversampler: the same ring and the same
//! convolution as the decimating filter, over the table that shapes the slew
//! of the upsampled signal.
use crate::oversample::fir_filter::{FirFilter, SimdFir};
use crate::simd_type::SimdType;
use vstd::prelude::*;

verus! {

/// The upsampling filter.
pub struct SlewFirFilter<T> {
    filter: FirFilter<T>,
}

impl<T: SimdType> SimdFir for SlewFirFilter<T> {
    type Float = T;

    closed spec fn wf(&self) -> bool {
        self.filter.wf()
    }

    closed spec fn window(&self) -> Seq<T> {
        self.filter.window()
    }

    closed spec fn coefficients(&self) -> Seq<T> {
        self.filter.coefficients()
    }

    closed spec fn zero(&self) -> T {
        self.filter.zero()
    }

    proof fn lemma_window_matches_table(&self) {
        self.filter.lemma_window_matches_table();
    }

    fn new(coefficients: Vec<T>) -> (filter: Self) {
        SlewFirFilter { filter: FirFilter::new(coefficients) }
    }

    fn process(&mut self, input: T) -> (out: T) {
        self.write(input);
        self.convolve()
    }

    fn write(&mut self, input: T) {
        self.filter.write(input);
    }

    fn convolve(&self) -> (out: T) {
        self.filter.convolve()
    }
}

} // verus!
