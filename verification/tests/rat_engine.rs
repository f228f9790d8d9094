#![allow(dead_code, unused_imports)]

use dm_effects::float_ext::FloatExt;
use dm_effects::simd_type::SimdType;
use std::ops::{Add, Div, Mul, Neg, Sub};

#[derive(Clone, Copy, Debug, PartialEq, PartialOrd)]
struct F(f32);

impl Add for F {
    type Output = F;
    fn add(self, rhs: F) -> F {
        F(self.0 + rhs.0)
    }
}

impl Sub for F {
    type Output = F;
    fn sub(self, rhs: F) -> F {
        F(self.0 - rhs.0)
    }
}

impl Mul for F {
    type Output = F;
    fn mul(self, rhs: F) -> F {
        F(self.0 * rhs.0)
    }
}

impl Div for F {
    type Output = F;
    fn div(self, rhs: F) -> F {
        F(self.0 / rhs.0)
    }
}

impl Neg for F {
    type Output = F;
    fn neg(self) -> F {
        F(-self.0)
    }
}

impl FloatExt for F {
    fn literal(text: &str) -> Self {
        F(text.parse().unwrap())
    }
    fn from_usize(n: usize) -> Self {
        F(n as f32)
    }
    fn from_i32(n: i32) -> Self {
        F(n as f32)
    }
    fn to_usize(self) -> usize {
        self.0 as usize
    }
    fn to_i32(self) -> i32 {
        self.0 as i32
    }
    fn abs(self) -> Self {
        F(self.0.abs())
    }
    fn trunc(self) -> Self {
        F(self.0.trunc())
    }
    fn round(self) -> Self {
        F(self.0.round())
    }
    fn sqrt(self) -> Self {
        F(self.0.sqrt())
    }
    fn exp(self) -> Self {
        F(self.0.exp())
    }
    fn powf(self, n: Self) -> Self {
        F(self.0.powf(n.0))
    }
    fn log10(self) -> Self {
        F(self.0.log10())
    }
    fn tan(self) -> Self {
        F(self.0.tan())
    }
    fn cos(self) -> Self {
        F(self.0.cos())
    }
    fn epsilon() -> Self {
        F(f32::EPSILON)
    }
}

#[derive(Clone, Copy, Debug, PartialEq)]
struct L([f32; 8]);

fn lanewise(a: L, b: L, op: fn(f32, f32) -> f32) -> L {
    let mut out = [0.0f32; 8];
    for i in 0..8 {
        out[i] = op(a.0[i], b.0[i]);
    }
    L(out)
}

impl Add for L {
    type Output = L;
    fn add(self, rhs: L) -> L {
        lanewise(self, rhs, |a, b| a + b)
    }
}

impl Sub for L {
    type Output = L;
    fn sub(self, rhs: L) -> L {
        lanewise(self, rhs, |a, b| a - b)
    }
}

impl Mul for L {
    type Output = L;
    fn mul(self, rhs: L) -> L {
        lanewise(self, rhs, |a, b| a * b)
    }
}

impl Div for L {
    type Output = L;
    fn div(self, rhs: L) -> L {
        lanewise(self, rhs, |a, b| a / b)
    }
}

impl Neg for L {
    type Output = L;
    fn neg(self) -> L {
        L(self.0.map(|x| -x))
    }
}

impl SimdType for L {
    type Scalar = F;
    fn oversample_factor() -> usize {
        8
    }
    fn splat(input: F) -> Self {
        L([input.0; 8])
    }
    fn reduce_sum(self) -> F {
        F(self.0.iter().sum())
    }
    fn reverse(self) -> Self {
        let mut out = self.0;
        out.reverse();
        L(out)
    }
    fn abs(self) -> Self {
        L(self.0.map(|x| x.abs()))
    }
    fn sqrt(self) -> Self {
        L(self.0.map(|x| x.sqrt()))
    }
    fn simd_clamp(self, min: Self, max: Self) -> Self {
        let mut out = self.0;
        for i in 0..8 {
            out[i] = out[i].clamp(min.0[i], max.0[i]);
        }
        L(out)
    }
}

fn close(a: f32, b: f32) -> bool {
    (a - b).abs() <= 4. * f32::EPSILON * a.abs().max(b.abs())
}

use dm_effects::oversample::fir_filter::{FirFilter as WindowFir, SimdFir};
use dm_effects::oversample::slew_fir_filter::SlewFirFilter;
use dm_effects::oversample::Oversample;
use dm_effects::rat::clipper::fir_filter::FirFilter;
use dm_effects::rat::clipper::Clipper;
use dm_effects::rat::op_amp::bilinear_transform::BilinearTransform;
use dm_effects::rat::op_amp::op_amp_correction::OpAmpCorrection;
use dm_effects::rat::op_amp::third_order_iir_filter::ThirdOrderIIRFilter;
use dm_effects::rat::op_amp::OpAmp;
use dm_effects::rat::params::smooth::LinearSmooth;
use dm_effects::rat::params::Params;
use dm_effects::rat::shared::one_pole_filter::OnePoleFilter;
use dm_effects::rat::smooth_parameters::ramp_smooth::RampSmooth;
use dm_effects::rat::smooth_parameters::SmoothParameters;
use dm_effects::rat::tone::Tone;
use dm_effects::rat::Rat;

fn assert_close(actual: ([F; 4], [F; 4]), expected: ([f32; 4], [f32; 4])) {
    for i in 0..4 {
        assert!(
            close(actual.0[i].0, expected.0[i]),
            "b[{}]: {} is not {}",
            i,
            actual.0[i].0,
            expected.0[i]
        );
        assert!(
            close(actual.1[i].0, expected.1[i]),
            "a[{}]: {} is not {}",
            i,
            actual.1[i].0,
            expected.1[i]
        );
    }
}

#[test]
fn s_domain_coefficients_should_be_correct_for_distortion_at_one() {
    let op_amp = OpAmp::<F>::new(F(44100.));

    let coeffs: ([f32; 4], [f32; 4]) = (
        [2.72149e-12, 0.000627937503, 0.6927454, 1.0],
        [2.72149e-12, 2.99503e-07, 0.0027454, 1.0],
    );
    assert_close(op_amp.get_s_domain_coefficients(F(1.)), coeffs)
}

#[test]
fn s_domain_coefficients_should_be_correct_for_distortion_at_one_tenth() {
    let op_amp = OpAmp::<F>::new(F(44100.));

    let coeffs: ([f32; 4], [f32; 4]) = (
        [2.72149e-13, 6.30386844e-05, 0.0717364, 1.0],
        [2.72149e-13, 2.748844e-07, 0.0027364, 1.0],
    );
    assert_close(op_amp.get_s_domain_coefficients(F(0.1)), coeffs)
}

#[test]
fn s_domain_coefficients_should_be_correct_for_distortion_at_one_hundredth() {
    let op_amp = OpAmp::<F>::new(F(44100.));

    let coeffs: ([f32; 4], [f32; 4]) = (
        [2.72149e-14, 6.54880254e-06, 0.009635499999999998, 1.0],
        [2.72149e-14, 2.7242254e-07, 0.0027354999999999997, 1.0],
    );
    assert_close(op_amp.get_s_domain_coefficients(F(0.01)), coeffs)
}

#[test]
fn s_domain_coefficients_should_be_correct_for_distortion_at_one_thousandth() {
    let op_amp = OpAmp::<F>::new(F(44100.));

    let coeffs: ([f32; 4], [f32; 4]) = (
        [2.72149e-15, 8.99814354e-07, 0.00342541, 1.0],
        [2.72149e-15, 2.72176354e-07, 0.0027354099999999998, 1.0],
    );
    assert_close(op_amp.get_s_domain_coefficients(F(0.001)), coeffs)
}

#[test]
fn s_domain_coefficients_should_be_correct_for_distortion_at_one_hundred_thousandth() {
    let op_amp = OpAmp::<F>::new(F(44100.));

    let coeffs: ([f32; 4], [f32; 4]) = (
        [
            2.7214899999999998e-17,
            2.7842565354e-07,
            0.0027423000999999996,
            1.0,
        ],
        [2.7214899999999998e-17, 2.7214927354e-07, 0.0027354001, 1.0],
    );
    assert_close(op_amp.get_s_domain_coefficients(F(0.00001)), coeffs)
}

#[test]
fn s_domain_coefficients_clamp_the_resistance() {
    let op_amp = OpAmp::<F>::new(F(44100.));
    // below one ohm the resistance is held at one: the same coefficients as for a control of 1e-5
    assert_eq!(
        op_amp.get_s_domain_coefficients(F(0.)),
        op_amp.get_s_domain_coefficients(F(0.00001))
    );
    assert_eq!(
        op_amp.get_s_domain_coefficients(F(-3.)),
        op_amp.get_s_domain_coefficients(F(0.00001))
    );
    // the derivation is a function of its inputs
    let other = OpAmp::<F>::new(F(44100.));
    assert_eq!(
        op_amp.get_s_domain_coefficients(F(0.37)),
        other.get_s_domain_coefficients(F(0.37))
    );
}

#[test]
fn bilinear_transform_should_be_correct() {
    let bilinear_transform = BilinearTransform::<F>::new(F(44100.));

    let coeffs = (
        [F(1.), F(2.27816380e+08), F(2.54546370e+11), F(3.67445774e+11)],
        [F(1.), F(1.10051112e+05), F(1.00878563e+09), F(3.67445774e+11)],
    );
    assert_close(
        bilinear_transform.process(coeffs),
        (
            [1100.38731292, -1073.70700939, -1098.70429603, 1072.02579416],
            [1., -1.73109163, 0.6830169, 0.0498764],
        ),
    );
}

#[test]
fn bilinear_transform_normalises_the_denominator() {
    let transform = BilinearTransform::<F>::new(F(2.));
    // t = 1/2: the scale factors are 1/4, 1/16, 1/64
    assert_eq!(transform.s, [F(0.25), F(0.0625), F(0.015625)]);
    // x = [1, 4, 16, 64] scales to [1, 1, 1, 1]
    let x = [F(1.), F(4.), F(16.), F(64.)];
    assert_eq!(transform.bilinear_transform(x), [F(4.), F(0.), F(4.), F(0.)]);
    let (b, a) = transform.process(([F(2.), F(8.), F(32.), F(128.)], x));
    assert_eq!(a, [F(1.), F(0.), F(1.), F(0.)]);
    assert_eq!(b, [F(2.), F(0.), F(2.), F(0.)]);
}

#[test]
fn should_ramp_up_and_down_in_time() {
    let ramp_time_in_samples = 8.0;
    let mut smoother = RampSmooth::new(F(1000.), F(1000. / ramp_time_in_samples));

    assert_eq!(smoother.process(F(1.)), F(0.125));
    assert_eq!(smoother.process(F(1.)), F(0.25));
    assert_eq!(smoother.process(F(1.)), F(0.375));
    assert_eq!(smoother.process(F(1.)), F(0.5));
    assert_eq!(smoother.process(F(1.)), F(0.625));
    assert_eq!(smoother.process(F(1.)), F(0.75));
    assert_eq!(smoother.process(F(1.)), F(0.875));
    assert_eq!(smoother.process(F(1.)), F(1.0));
    assert_eq!(smoother.process(F(1.)), F(1.0));
    assert_eq!(smoother.process(F(0.)), F(0.875));
    assert_eq!(smoother.process(F(0.)), F(0.75));
    assert_eq!(smoother.process(F(0.)), F(0.625));
    assert_eq!(smoother.process(F(0.)), F(0.5));
    assert_eq!(smoother.process(F(1.)), F(0.5625));
}

#[test]
fn ramp_reaches_its_target_and_holds() {
    let mut smoother = RampSmooth::new(F(1000.), F(250.));
    assert_eq!(smoother.ramp_time, 4);
    assert_eq!(smoother.ramp_factor, F(0.25));
    let mut values = Vec::new();
    for _ in 0..7 {
        values.push(smoother.ramp(F(2.), F(2.) - smoother.z));
    }
    assert_eq!(values, vec![F(0.5), F(1.), F(1.5), F(2.), F(2.), F(2.), F(2.)]);
    assert_eq!(smoother.index, 0);
    // back down, symmetrically
    let mut values = Vec::new();
    for _ in 0..5 {
        values.push(smoother.process(F(0.)));
    }
    assert_eq!(values, vec![F(1.5), F(1.), F(0.5), F(0.), F(0.)]);
}

#[test]
fn ramp_reaches_zero_after_initialize() {
    let mut smoother = RampSmooth::new(F(1000.), F(125.));
    smoother.initialize(F(0.5));
    for k in 1..=8 {
        assert_eq!(smoother.process(F(0.)), F(0.5 - 0.0625 * k as f32));
    }
    assert_eq!(smoother.z, F(0.));
    assert_eq!(smoother.process(F(0.)), F(0.));
    // a ramp under way is given up
    smoother.process(F(1.));
    smoother.initialize(F(0.25));
    assert_eq!(smoother.index, 0);
    assert_eq!(smoother.prev, F(0.25));
    assert_eq!(smoother.process(F(0.25)), F(0.25));
}

#[test]
fn ramp_smooth_initialize_sets_the_value() {
    let mut smoother = RampSmooth::new(F(1000.), F(250.));
    smoother.initialize(F(0.75));
    assert_eq!(smoother.z, F(0.75));
    assert_eq!(smoother.process(F(0.75)), F(0.75));
    assert_eq!(smoother.index, 0);
}

#[test]
fn smooth_parameters_ramp_each_control() {
    let mut smoothers = SmoothParameters::new(F(100.));
    // a twentieth of a second at 100 Hz: five samples
    assert_eq!(smoothers.smooth_distortion.ramp_time, 5);
    smoothers.initialize(F(1.), F(0.5), F(0.));
    assert_eq!(smoothers.process(F(1.), F(0.5), F(0.)), (F(1.), F(0.5), F(0.)));
    let (distortion, filter, volume) = smoothers.process(F(0.5), F(0.5), F(1.));
    assert!(close(distortion.0, 0.9));
    assert_eq!(filter, F(0.5));
    assert!(close(volume.0, 0.2));
    // a target of zero is ramped to like any other
    let mut smoothers = SmoothParameters::new(F(100.));
    smoothers.initialize(F(1.), F(1.), F(1.));
    let (distortion, filter, volume) = smoothers.process(F(0.), F(0.), F(0.));
    assert!(close(distortion.0, 0.8) && close(filter.0, 0.8) && close(volume.0, 0.8));
}

#[test]
fn linear_smooth_ramps_to_a_new_target() {
    let mut smoother = LinearSmooth::new(F(1000.), F(250.));
    assert_eq!(smoother.ramp_time, 4);
    assert_eq!(smoother.next(), F(0.));
    smoother.set_target(F(1.));
    assert_eq!(smoother.steps_left, 4);
    assert_eq!(smoother.next(), F(0.25));
    // the same target again does not restart the ramp
    smoother.set_target(F(1.));
    assert_eq!(smoother.steps_left, 3);
    assert_eq!(smoother.next(), F(0.5));
    assert_eq!(smoother.next(), F(0.75));
    assert_eq!(smoother.next(), F(1.));
    assert_eq!(smoother.next(), F(1.));
    smoother.reset(F(0.5));
    assert_eq!(smoother.next(), F(0.5));
    assert_eq!(smoother.target, F(0.5));
}

#[test]
fn params_snap_first_and_ramp_later() {
    let mut params = Params::new(F(1000.));
    assert!(!params.is_initialized);
    params.set(F(0.5), F(1.), F(2.));
    assert!(params.is_initialized);
    assert_eq!(params.distortion.next(), F(0.125));
    assert_eq!(params.filter.next(), F(1.));
    assert_eq!(params.volume.next(), F(8.));
    params.set(F(1.), F(1.), F(0.));
    // 20 Hz at 1 kHz: fifty samples per ramp
    assert_eq!(params.volume.steps_left, 50);
    assert_eq!(params.filter.steps_left, 0);
    assert!(close(params.volume.next().0, 8. - 8. / 50.));
    assert!(close(params.distortion.next().0, 0.125 + 0.875 / 50.));
}

#[test]
fn one_pole_filter_follows_its_formula() {
    let mut filter = OnePoleFilter::new(F(44100.));
    let t = 44100.0f32.recip() * -std::f32::consts::TAU;
    assert_eq!(filter.t, F(t));
    let b1 = (1000.0f32 * t).exp();
    let first = 1.0f32 * (1. - b1) + 0. * b1;
    assert_eq!(filter.process(F(1.), F(1000.)), F(first));
    assert_eq!(filter.b1, F(b1));
    let second = 0.5f32 * (1. - b1) + first * b1;
    assert_eq!(filter.process(F(0.5), F(1000.)), F(second));
    // the same cutoff again keeps the pole
    assert_eq!(filter.prev_freq, Some(F(1000.)));
}

#[test]
fn one_pole_filter_at_a_cutoff_of_zero_holds_its_register() {
    // the pole is exp(0) = 1: nothing of the input gets through, also on the first sample
    let mut fresh = OnePoleFilter::new(F(44100.));
    assert!(fresh.prev_freq.is_none());
    assert_eq!(fresh.process(F(1.), F(0.)), F(0.));
    assert_eq!(fresh.b1, F(1.));
    assert_eq!(fresh.process(F(0.75), F(0.)), F(0.));
    // remembering the cutoff changes no result
    let mut warm = OnePoleFilter::new(F(44100.));
    let mut cold = OnePoleFilter::new(F(44100.));
    let mut last = F(0.);
    for n in 0..16 {
        let freq = F(if n % 4 < 2 { 500. } else { 0. });
        let input = F((n as f32 * 0.7).sin());
        last = warm.process(input, freq);
        cold.prev_freq = None;
        assert_eq!(cold.process(input, freq), last);
    }
    assert!(last.0.is_finite());
}

#[test]
fn tone_cutoff_follows_the_control() {
    let tone = Tone::new(F(44100.));
    let expected = (std::f32::consts::TAU * (0.5f32 * 100000. + 1500.) * 3.3e-9).recip();
    assert_eq!(tone.get_cutoff_frequency(F(0.5)), F(expected));
    assert!((expected - 936.48).abs() < 0.01);
    let mut stage = Tone::new(F(44100.));
    let mut lowpass = OnePoleFilter::new(F(44100.));
    assert_eq!(stage.process(F(1.), F(0.5)), lowpass.process(F(1.), F(expected)));
}

#[test]
fn op_amp_correction_follows_the_gain() {
    let correction = OpAmpCorrection::new(F(44100.));
    assert_eq!(correction.atodb(F(10.)), F(20.));
    assert_eq!(correction.atodb(F(1.)), F(0.));
    // without distortion the gain is one: zero decibels
    assert_eq!(correction.get_db_gain(F(0.)), F(0.));
    let gain = 1. + 1.0f32 * 100000. / (560. * 47. / (560. + 47.));
    let db = 20. * gain.log10();
    assert_eq!(correction.get_db_gain(F(1.)), F(db));
    let cutoff = 10.0f32.powf((120.9794 - db) / 20.);
    assert_eq!(correction.get_cutoff_frequency(F(1.)), F(cutoff));
    let mut stage = OpAmpCorrection::new(F(44100.));
    let mut lowpass = OnePoleFilter::new(F(44100.));
    assert_eq!(stage.process(F(1.), F(1.)), lowpass.process(F(1.), F(cutoff)));
}

#[test]
fn third_order_filter_follows_its_formula() {
    let mut filter = ThirdOrderIIRFilter::<F>::new();
    assert_eq!(filter.z, [F(0.); 3]);
    let b = [F(1.), F(2.), F(3.), F(4.)];
    let a = [F(1.), F(0.5), F(0.25), F(0.125)];
    // y = 2 * 1 + 0
    assert_eq!(filter.process(F(2.), (b, a)), F(2.));
    // z0 = 2*2 - 2*0.5, z1 = 2*3 - 2*0.25, z2 = 2*4 - 2*0.125
    assert_eq!(filter.z, [F(3.), F(5.5), F(7.75)]);
    // y = 0 + z0; z0 = -3*0.5 + 5.5, z1 = -3*0.25 + 7.75, z2 = -3*0.125
    assert_eq!(filter.process(F(0.), (b, a)), F(3.));
    assert_eq!(filter.z, [F(4.), F(7.), F(-0.375)]);
}

fn table(length: usize) -> Vec<L> {
    (0..length)
        .map(|i| {
            let mut lanes = [0.0f32; 8];
            for lane in 0..8 {
                lanes[lane] = (10 * (i + 1) + lane) as f32;
            }
            L(lanes)
        })
        .collect()
}

#[test]
fn fir_impulse_response_is_the_coefficient_table() {
    let coefficients = table(4);
    let mut filter = FirFilter::<L>::new(coefficients.clone());
    // the input is scaled by the eight lanes: an eighth gives a unit impulse
    assert_eq!(filter.upsample(F(0.125)), coefficients[0]);
    assert_eq!(filter.upsample(F(0.)), coefficients[1]);
    assert_eq!(filter.upsample(F(0.)), coefficients[2]);
    assert_eq!(filter.upsample(F(0.)), coefficients[3]);
    assert_eq!(filter.upsample(F(0.)), L([0.; 8]));
}

#[test]
fn fir_upsample_sums_the_window() {
    let mut filter = FirFilter::<L>::new(vec![L([1.; 8]), L([2.; 8])]);
    assert_eq!(filter.upsample(F(1.)), L([8.; 8]));
    // newest first: 16 * 1 + 8 * 2
    assert_eq!(filter.upsample(F(2.)), L([32.; 8]));
    // 0 * 1 + 16 * 2
    assert_eq!(filter.upsample(F(0.)), L([32.; 8]));
}

#[test]
fn fir_downsample_reverses_the_lanes() {
    let ramp = L([1., 2., 3., 4., 5., 6., 7., 8.]);
    let pick_first = L([1., 0., 0., 0., 0., 0., 0., 0.]);
    let mut filter = FirFilter::<L>::new(vec![pick_first, L([1.; 8])]);
    // the first lane of the table meets the last lane of the input
    assert_eq!(filter.downsample(ramp), F(8.));
    // the older vector meets the second entry: its lanes sum to 36
    assert_eq!(filter.downsample(L([0.; 8])), F(36.));
    assert_eq!(filter.downsample(L([0.; 8])), F(0.));
}

#[test]
fn window_filter_pairs_the_oldest_vector_with_the_first_entry() {
    let coefficients = table(4);
    let mut filter = WindowFir::<L>::new(coefficients.clone());
    assert_eq!(filter.convolve(), L([0.; 8]));
    // an impulse moves from the last entry of the table to the first
    assert_eq!(filter.process(L([1.; 8])), coefficients[3]);
    assert_eq!(filter.process(L([0.; 8])), coefficients[2]);
    assert_eq!(filter.process(L([0.; 8])), coefficients[1]);
    assert_eq!(filter.process(L([0.; 8])), coefficients[0]);
    assert_eq!(filter.process(L([0.; 8])), L([0.; 8]));
    let mut slew = SlewFirFilter::<L>::new(coefficients.clone());
    slew.write(L([2.; 8]));
    assert_eq!(slew.convolve(), coefficients[3] + coefficients[3]);
    assert_eq!(slew.process(L([0.; 8])), coefficients[2] + coefficients[2]);
}

fn taps(first: f32) -> Vec<L> {
    let mut table = vec![L([0.; 8]); 16];
    table[15] = L([first; 8]);
    table
}

#[test]
fn oversample_runs_the_callback_between_the_filters() {
    // only the newest vector of each window meets a coefficient that is not zero
    let mut oversample = Oversample::<L>::new(taps(1.), taps(0.5), F(0.25));
    assert_eq!(oversample.oversample_factor, 8);
    assert_eq!(oversample.factor, F(8.));
    assert_eq!(oversample.gain, F(0.25));
    // 0.25 * 8 in every lane, doubled by the callback, halved by the table, summed over
    // 8 lanes, at a gain of a quarter
    assert_eq!(oversample.process(F(0.25), |x| x + x), F(4.));
    assert_eq!(oversample.upsample(F(1.)), L([8.; 8]));
    assert_eq!(oversample.run_upsampled_process(L([3.; 8]), |x| x * x), L([9.; 8]));
    assert_eq!(oversample.downsample(L([1.; 8])), F(4.));
    // silence in, silence out
    let mut fresh = Oversample::<L>::new(table(16), table(16), F(0.558838));
    assert_eq!(fresh.process(F(0.), |x| x), F(0.));
}

#[test]
fn oversample_calls_the_callback_once() {
    let calls = std::cell::Cell::new(0);
    let mut oversample = Oversample::<L>::new(taps(1.), taps(1.), F(1.));
    oversample.process(F(0.5), |x| {
        calls.set(calls.get() + 1);
        assert_eq!(x, L([4.; 8]));
        x
    });
    assert_eq!(calls.get(), 1);
}

#[test]
fn clip_is_odd_and_bounded() {
    let clipper = Clipper::<L>::new(vec![L([1.; 8])], vec![L([1.; 8])]);
    let x = L([0., 0.25, 0.5, 1., 2., 10., 1000., 1e6]);
    let y = clipper.clip(x);
    let mirrored = clipper.clip(-x);
    assert_eq!(y.0[0], 0.);
    for lane in 0..8 {
        assert_eq!(mirrored.0[lane], -y.0[lane]);
        assert!(y.0[lane].abs() <= 1.);
        if lane > 0 {
            assert!(y.0[lane] >= y.0[lane - 1]);
        }
    }
    // 1 / (1 + 1)^(1/4)
    assert_eq!(y.0[3], 1. / 2.0f32.sqrt().sqrt());
}

#[test]
fn clip_saturates_for_any_input() {
    let clipper = Clipper::<L>::new(vec![L([1.; 8])], vec![L([1.; 8])]);
    let x = L([1e4, 65536., 1e5, 4e9, 1e10, 1e20, f32::MAX, f32::INFINITY]);
    let y = clipper.clip(x);
    let mirrored = clipper.clip(-x);
    for lane in 0..8 {
        assert!((y.0[lane] - 1.).abs() <= f32::EPSILON, "lane {}: {}", lane, y.0[lane]);
        assert_eq!(mirrored.0[lane], -y.0[lane]);
        if lane > 0 {
            assert!(y.0[lane] >= y.0[lane - 1]);
        }
    }
    assert_eq!(clipper.clip(L([1e10; 8])), L([1.; 8]));
}

#[test]
fn clipper_scales_shapes_and_sums() {
    let mut clipper = Clipper::<L>::new(vec![L([1.; 8])], vec![L([0.125; 8])]);
    let out = clipper.process(F(0.5));
    let x = 0.5f32 * 1.877 * 8.;
    let clipped = x / (1. + (x * x) * (x * x)).sqrt().sqrt();
    let summed: f32 = [clipped * 0.125; 8].iter().sum();
    assert_eq!(out, F(summed * 0.3204805));
    assert_eq!(clipper.process(F(0.)), F(0.));
}

#[test]
fn rat_is_its_stages_in_order() {
    let up = table(16);
    let down = vec![L([0.01; 8]); 16];
    let mut rat = Rat::<L>::new(F(44100.), up.clone(), down.clone());
    let mut params = Params::new(F(44100.));
    params.set(F(0.5), F(0.5), F(0.5));

    let mut op_amp = OpAmp::new(F(44100.));
    let mut clipper = Clipper::<L>::new(up, down);
    let mut tone = Tone::new(F(44100.));

    for n in 0..64 {
        let input = F(((n as f32) * 0.3).sin());
        let out = rat.process(input, &mut params);
        let expected = tone.process(clipper.process(op_amp.process(input, F(0.125))), F(0.125))
            * F(0.125);
        assert_eq!(out, expected);
        assert!(out.0.is_finite());
    }
}

#[test]
fn op_amp_is_its_parts_in_order() {
    let mut stage = OpAmp::new(F(44100.));
    let reference = OpAmp::<F>::new(F(44100.));
    let transform = BilinearTransform::new(F(44100.));
    let mut filter = ThirdOrderIIRFilter::new();
    let mut correction = OpAmpCorrection::new(F(44100.));
    for n in 0..32 {
        let input = F(((n as f32) * 0.2).cos());
        let coefficients = transform.process(reference.get_s_domain_coefficients(F(0.3)));
        assert_eq!(coefficients.1[0], F(1.));
        let expected = correction.process(filter.process(input, coefficients), F(0.3));
        assert_eq!(stage.process(input, F(0.3)), expected);
    }
}
