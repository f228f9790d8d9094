#![allow(dead_code, unused_imports)]

use dm_effects::float_ext::FloatExt;
use dm_effects::simd_type::SimdType;
use std::ops::{Add, Div, Mul, Neg, Sub};

#[derive(Clone, Copy, Debug, PartialEq, PartialOrd)]
struct F(f32);

impl Add for F {
    type Output = F;
    fn add(self, rhs: F) -> F {
        F(self.0 + rhs.0)
    }
}

impl Sub for F {
    type Output = F;
    fn sub(self, rhs: F) -> F {
        F(self.0 - rhs.0)
    }
}

impl Mul for F {
    type Output = F;
    fn mul(self, rhs: F) -> F {
        F(self.0 * rhs.0)
    }
}

impl Div for F {
    type Output = F;
    fn div(self, rhs: F) -> F {
        F(self.0 / rhs.0)
    }
}

impl Neg for F {
    type Output = F;
    fn neg(self) -> F {
        F(-self.0)
    }
}

impl FloatExt for F {
    fn literal(text: &str) -> Self {
        F(text.parse().unwrap())
    }
    fn from_usize(n: usize) -> Self {
        F(n as f32)
    }
    fn from_i32(n: i32) -> Self {
        F(n as f32)
    }
    fn to_usize(self) -> usize {
        self.0 as usize
    }
    fn to_i32(self) -> i32 {
        self.0 as i32
    }
    fn abs(self) -> Self {
        F(self.0.abs())
    }
    fn trunc(self) -> Self {
        F(self.0.trunc())
    }
    fn round(self) -> Self {
        F(self.0.round())
    }
    fn sqrt(self) -> Self {
        F(self.0.sqrt())
    }
    fn exp(self) -> Self {
        F(self.0.exp())
    }
    fn powf(self, n: Self) -> Self {
        F(self.0.powf(n.0))
    }
    fn log10(self) -> Self {
        F(self.0.log10())
    }
    fn tan(self) -> Self {
        F(self.0.tan())
    }
    fn cos(self) -> Self {
        F(self.0.cos())
    }
    fn epsilon() -> Self {
        F(f32::EPSILON)
    }
}

#[derive(Clone, Copy, Debug, PartialEq)]
struct L([f32; 8]);

fn lanewise(a: L, b: L, op: fn(f32, f32) -> f32) -> L {
    let mut out = [0.0f32; 8];
    for i in 0..8 {
        out[i] = op(a.0[i], b.0[i]);
    }
    L(out)
}

impl Add for L {
    type Output = L;
    fn add(self, rhs: L) -> L {
        lanewise(self, rhs, |a, b| a + b)
    }
}

impl Sub for L {
    type Output = L;
    fn sub(self, rhs: L) -> L {
        lanewise(self, rhs, |a, b| a - b)
    }
}

impl Mul for L {
    type Output = L;
    fn mul(self, rhs: L) -> L {
        lanewise(self, rhs, |a, b| a * b)
    }
}

impl Div for L {
    type Output = L;
    fn div(self, rhs: L) -> L {
        lanewise(self, rhs, |a, b| a / b)
    }
}

impl Neg for L {
    type Output = L;
    fn neg(self) -> L {
        L(self.0.map(|x| -x))
    }
}

impl SimdType for L {
    type Scalar = F;
    fn oversample_factor() -> usize {
        8
    }
    fn splat(input: F) -> Self {
        L([input.0; 8])
    }
    fn reduce_sum(self) -> F {
        F(self.0.iter().sum())
    }
    fn reverse(self) -> Self {
        let mut out = self.0;
        out.reverse();
        L(out)
    }
    fn abs(self) -> Self {
        L(self.0.map(|x| x.abs()))
    }
    fn sqrt(self) -> Self {
        L(self.0.map(|x| x.sqrt()))
    }
    fn simd_clamp(self, min: Self, max: Self) -> Self {
        let mut out = self.0;
        for i in 0..8 {
            out[i] = out[i].clamp(min.0[i], max.0[i]);
        }
        L(out)
    }
}

fn close(a: f32, b: f32) -> bool {
    (a - b).abs() <= 4. * f32::EPSILON * a.abs().max(b.abs())
}

use dm_effects::repeat::delay_line::{DelayLine, Interpolation};
use dm_effects::repeat::delay_line_read::{DelayLineRead, MAX_REPEATS};
use dm_effects::repeat::ramp::Ramp;
use dm_effects::repeat::{Repeat, VariableParameters};

#[test]
fn feedback() {
    let repeater = DelayLineRead::<F>::new();
    assert_eq!(repeater.simulate_feedback(F(0.0), F(1.0), 4), F(1.0));
    assert_eq!(repeater.simulate_feedback(F(1.0), F(1.0), 4), F(1.0));
    assert_eq!(repeater.simulate_feedback(F(2.0), F(1.0), 4), F(1.0));
    assert_eq!(repeater.simulate_feedback(F(3.0), F(1.0), 4), F(1.0));

    assert_eq!(repeater.simulate_feedback(F(0.0), F(2.0), 4), F(1.0));
    assert_eq!(repeater.simulate_feedback(F(1.0), F(2.0), 4), F(2.0));
    assert_eq!(repeater.simulate_feedback(F(2.0), F(2.0), 4), F(4.0));
    assert_eq!(repeater.simulate_feedback(F(3.0), F(2.0), 4), F(8.0));

    assert_eq!(repeater.simulate_feedback(F(0.0), F(0.5), 4), F(1.0));
    assert_eq!(repeater.simulate_feedback(F(1.0), F(0.5), 4), F(0.5));
    assert_eq!(repeater.simulate_feedback(F(2.0), F(0.5), 4), F(0.25));
    assert_eq!(repeater.simulate_feedback(F(3.0), F(0.5), 4), F(0.125));

    assert_eq!(repeater.simulate_feedback(F(0.0), F(-1.0), 4), F(1.0));
    assert_eq!(repeater.simulate_feedback(F(1.0), F(-1.0), 4), F(1.0));
    assert_eq!(repeater.simulate_feedback(F(2.0), F(-1.0), 4), F(1.0));
    assert_eq!(repeater.simulate_feedback(F(3.0), F(-1.0), 4), F(1.0));

    assert_eq!(repeater.simulate_feedback(F(0.0), F(-2.0), 4), F(8.0));
    assert_eq!(repeater.simulate_feedback(F(1.0), F(-2.0), 4), F(4.0));
    assert_eq!(repeater.simulate_feedback(F(2.0), F(-2.0), 4), F(2.0));
    assert_eq!(repeater.simulate_feedback(F(3.0), F(-2.0), 4), F(1.0));

    assert_eq!(repeater.simulate_feedback(F(0.0), F(-0.5), 4), F(0.125));
    assert_eq!(repeater.simulate_feedback(F(1.0), F(-0.5), 4), F(0.25));
    assert_eq!(repeater.simulate_feedback(F(2.0), F(-0.5), 4), F(0.5));
    assert_eq!(repeater.simulate_feedback(F(3.0), F(-0.5), 4), F(1.0));
}

#[test]
fn delay_time() {
    let mut repeater = DelayLineRead::<F>::new();
    assert_eq!(repeater.get_delay_time(F(0.0), F(100.0), F(0.0)), F(0.0));
    assert_eq!(repeater.get_delay_time(F(1.0), F(100.0), F(0.0)), F(100.0));
    assert_eq!(repeater.get_delay_time(F(2.0), F(100.0), F(0.0)), F(200.0));
    assert_eq!(repeater.get_delay_time(F(3.0), F(100.0), F(0.0)), F(300.0));

    assert_eq!(repeater.get_delay_time(F(0.0), F(100.0), F(1.0)), F(0.0));
    assert_eq!(repeater.get_delay_time(F(1.0), F(100.0), F(1.0)), F(100.0));
    assert_eq!(repeater.get_delay_time(F(2.0), F(100.0), F(1.0)), F(300.0));
    assert_eq!(repeater.get_delay_time(F(3.0), F(100.0), F(1.0)), F(700.0));

    assert_eq!(repeater.get_delay_time(F(0.0), F(100.0), F(0.5)), F(0.0));
    assert_eq!(repeater.get_delay_time(F(1.0), F(100.0), F(0.5)), F(100.0));
    assert_eq!(repeater.get_delay_time(F(2.0), F(100.0), F(0.5)), F(241.42136));
    assert_eq!(repeater.get_delay_time(F(3.0), F(100.0), F(0.5)), F(441.42133));

    assert_eq!(repeater.get_delay_time(F(0.0), F(100.0), F(-0.5)), F(0.0));
    assert_eq!(repeater.get_delay_time(F(1.0), F(100.0), F(-0.5)), F(100.0));
    assert_eq!(repeater.get_delay_time(F(2.0), F(100.0), F(-0.5)), F(170.71068));
    assert_eq!(repeater.get_delay_time(F(3.0), F(100.0), F(-0.5)), F(220.71068));

    assert_eq!(repeater.get_delay_time(F(0.0), F(100.0), F(-1.0)), F(0.0));
    assert_eq!(repeater.get_delay_time(F(1.0), F(100.0), F(-1.0)), F(100.0));
    assert_eq!(repeater.get_delay_time(F(2.0), F(100.0), F(-1.0)), F(150.0));
    assert_eq!(repeater.get_delay_time(F(3.0), F(100.0), F(-1.0)), F(175.0));
}

#[test]
fn next_and_previous_parameters_equality() {
    assert!(
        VariableParameters {
            repeats: 4,
            time_in_ms: F(200.),
            feedback: F(0.),
            skew: F(0.),
        } == VariableParameters {
            repeats: 4,
            time_in_ms: F(200.),
            feedback: F(0.),
            skew: F(0.),
        }
    );

    assert!(
        VariableParameters {
            repeats: 4,
            time_in_ms: F(200.),
            feedback: F(0.),
            skew: F(0.),
        } != VariableParameters {
            repeats: 4,
            time_in_ms: F(1000.),
            feedback: F(0.),
            skew: F(0.),
        }
    );

    assert!(
        VariableParameters {
            repeats: 8,
            time_in_ms: F(200.),
            feedback: F(0.),
            skew: F(0.),
        } != VariableParameters {
            repeats: 4,
            time_in_ms: F(1000.),
            feedback: F(0.),
            skew: F(0.),
        }
    );
}

#[test]
fn parameters_differ_in_each_field() {
    let base = VariableParameters { repeats: 4, time_in_ms: F(200.), feedback: F(0.5), skew: F(0.) };
    assert!(base == base);
    assert!(base != VariableParameters { repeats: 5, ..base });
    assert!(base != VariableParameters { feedback: F(0.25), ..base });
    assert!(base != VariableParameters { skew: F(0.1), ..base });
}

#[test]
fn delay_read_at_zero_is_the_latest_sample() {
    let mut line = DelayLine::<F>::new(8, F(1000.));
    line.write(F(0.25));
    assert_eq!(line.read(F(0.), Interpolation::Step), F(0.25));
    assert_eq!(line.read(F(0.), Interpolation::Linear), F(0.25));
    assert_eq!(line.tap(0), F(0.25));
    line.write(F(-0.5));
    assert_eq!(line.read(F(0.), Interpolation::Linear), F(-0.5));
    assert_eq!(line.tap(1), F(0.25));
}

#[test]
fn delay_line_starts_silent_and_wraps() {
    let mut line = DelayLine::<F>::new(4, F(1000.));
    for k in 0..4 {
        assert_eq!(line.tap(k), F(0.));
    }
    for n in 1..=6 {
        line.write(F(n as f32));
    }
    assert_eq!(line.tap(0), F(6.));
    assert_eq!(line.tap(1), F(5.));
    assert_eq!(line.tap(2), F(4.));
    assert_eq!(line.tap(3), F(3.));
    assert_eq!(line.tap(4), F(6.));
}

#[test]
fn delay_line_of_length_zero_holds_one_sample() {
    let mut line = DelayLine::<F>::new(0, F(1000.));
    assert_eq!(line.tap(0), F(0.));
    line.write(F(2.));
    assert_eq!(line.tap(0), F(2.));
    assert_eq!(line.tap(5), F(2.));
}

#[test]
fn delay_read_blends_neighbours() {
    let mut line = DelayLine::<F>::new(8, F(1000.));
    line.write(F(1.));
    line.write(F(3.));
    // one and a half samples back: half way from the sample at distance 1 to the one at distance 2
    assert_eq!(line.read(F(1.), Interpolation::Step), F(1.));
    assert_eq!(line.read(F(0.5), Interpolation::Linear), F(2.));
    assert_eq!(line.read(F(1.5), Interpolation::Linear), F(0.5));
    assert_eq!(line.read(F(1.5), Interpolation::Step), F(1.));
}

#[test]
fn ramp_rises_and_finishes() {
    let mut ramp = Ramp::<F>::new(F(4.));
    assert!(ramp.is_finished());
    assert_eq!(ramp.run(F(1.), F(0.), F(1.)), F(0.));
    ramp.start(None);
    assert!(!ramp.is_finished());
    assert_eq!(ramp.run(F(1.), F(0.), F(1.)), F(0.));
    assert_eq!(ramp.run(F(1.), F(0.), F(1.)), F(0.25));
    assert_eq!(ramp.run(F(1.), F(0.), F(1.)), F(0.5));
    assert_eq!(ramp.run(F(1.), F(0.), F(1.)), F(0.75));
    assert!(!ramp.is_finished());
    assert_eq!(ramp.run(F(1.), F(0.), F(1.)), F(1.));
    assert!(ramp.is_finished());
    assert_eq!(ramp.run(F(1.), F(0.), F(1.)), F(1.));
    ramp.start(Some(F(0.5)));
    assert_eq!(ramp.run(F(1.), F(0.), F(1.)), F(0.5));
    assert_eq!(ramp.run(F(1.), F(0.), F(1.)), F(0.75));
}

#[test]
fn reader_sums_the_repeats() {
    let mut line = DelayLine::<F>::new(1000, F(1000.));
    for n in 0..1000 {
        line.write(F(n as f32));
    }
    let mut reader = DelayLineRead::<F>::new();
    // no repeats: silence
    assert_eq!(reader.run(F(7.), &line, F(100.), 0, F(0.5), F(0.)), F(0.));
    // one repeat: the input at unit gain
    assert_eq!(reader.run(F(7.), &line, F(100.), 1, F(0.5), F(0.)), F(7.));
    // three repeats, 100 ms apart at 1 kHz: 7 + 0.5 * line[100 back] + 0.25 * line[200 back]
    let expected = 7. + 0.5 * 899. + 0.25 * 799.;
    assert_eq!(reader.run(F(7.), &line, F(100.), 3, F(0.5), F(0.)), F(expected));
    // reversed feedback: the gains are 0.25, 0.5, 1
    let reversed = 0.25 * 7. + 0.5 * 899. + 799.;
    assert_eq!(reader.run(F(7.), &line, F(100.), 3, F(-0.5), F(0.)), F(reversed));
}

#[test]
fn reader_stops_at_the_most_repeats() {
    let line = DelayLine::<F>::new(16, F(1000.));
    let mut reader = DelayLineRead::<F>::new();
    assert_eq!(MAX_REPEATS, 32);
    // silence in the line: only repeat zero is heard, whatever the count
    assert_eq!(reader.run(F(1.), &line, F(1.), 1000, F(1.), F(0.)), F(1.));
}

#[test]
fn engine_at_rest_passes_the_input() {
    let mut engine = Repeat::<F>::new(F(1000.));
    // four repeats without feedback: repeat zero at gain one, the others at gain zero
    let out = engine.run(F(0.5), F(5.), F(4.), F(0.), F(0.));
    assert_eq!(out, F(0.5));
    assert!(engine.ramp.is_finished());
}

#[test]
fn engine_changes_settings_only_between_crossfades() {
    let mut engine = Repeat::<F>::new(F(1000.));
    engine.run(F(1.), F(5.), F(4.), F(0.), F(0.));
    assert!(engine.ramp.is_finished());
    engine.run(F(1.), F(10.), F(4.), F(0.), F(0.));
    assert!(!engine.ramp.is_finished());
    assert_eq!(engine.previous_parameters.time_in_ms, F(200.));
    assert_eq!(engine.current_parameters.time_in_ms, F(100.));
    // a change during the crossfade is not taken over
    engine.run(F(1.), F(20.), F(8.), F(0.5), F(0.));
    assert_eq!(engine.previous_parameters.time_in_ms, F(200.));
    assert_eq!(engine.current_parameters.time_in_ms, F(100.));
    assert_eq!(engine.current_parameters.repeats, 4);
    let mut samples = 2;
    while !engine.ramp.is_finished() {
        engine.run(F(1.), F(20.), F(8.), F(0.5), F(0.));
        samples += 1;
        assert!(samples < 1000);
    }
    // 5 Hz at 1 kHz: the ramp needs 200 steps after its first sample
    assert!(samples >= 200 && samples <= 202);
    assert_eq!(engine.current_parameters.time_in_ms, F(100.));
    // at rest again: the change is taken over now
    engine.run(F(1.), F(20.), F(8.), F(0.5), F(0.));
    assert_eq!(engine.previous_parameters.time_in_ms, F(100.));
    assert_eq!(engine.current_parameters.time_in_ms, F(50.));
    assert_eq!(engine.current_parameters.repeats, 8);
}

#[test]
fn crossfade_does_not_jump() {
    let mut engine = Repeat::<F>::new(F(1000.));
    let mut n = 0;
    let mut signal = move || {
        n += 1;
        F(0.5 + 0.25 * ((n as f32) * 0.01).sin())
    };
    let mut previous = F(0.);
    for _ in 0..3000 {
        previous = engine.run(signal(), F(5.), F(4.), F(0.8), F(0.));
    }
    let mut largest = 0.0f32;
    for _ in 0..400 {
        let out = engine.run(signal(), F(8.), F(6.), F(0.6), F(0.3));
        largest = largest.max((out.0 - previous.0).abs());
        previous = out;
    }
    assert!(largest < 0.05, "largest step {}", largest);
}

#[test]
fn feedback_of_zero_leaves_only_the_first_repeat() {
    let repeater = DelayLineRead::<F>::new();
    assert_eq!(repeater.simulate_feedback(F(0.0), F(0.0), 4), F(1.0));
    assert_eq!(repeater.simulate_feedback(F(1.0), F(0.0), 4), F(0.0));
    assert_eq!(repeater.simulate_feedback(F(3.0), F(0.0), 4), F(0.0));
    // a negative zero is at least zero: the repeats are counted forward
    assert_eq!(repeater.simulate_feedback(F(0.0), F(-0.0), 4), F(1.0));
    assert_eq!(repeater.simulate_feedback(F(1.0), F(-0.0), 4), F(0.0));
    assert_eq!(repeater.simulate_feedback(F(3.0), F(-0.0), 4), F(0.0));
}

#[test]
fn negative_feedback_mirrors_the_gains() {
    let repeater = DelayLineRead::<F>::new();
    for repeats in 1..8usize {
        for i in 0..repeats {
            for feedback in [0.25f32, 0.5, 0.9, 1.0, 1.25, 2.0] {
                assert_eq!(
                    repeater.simulate_feedback(F(i as f32), F(-feedback), repeats),
                    repeater.simulate_feedback(F((repeats - 1 - i) as f32), F(feedback), repeats)
                );
            }
        }
    }
    // the gain depends on nothing the reader remembers, and changes nothing
    let mut other = DelayLineRead::<F>::new();
    other.get_delay_time(F(2.), F(100.), F(0.5));
    assert_eq!(
        other.simulate_feedback(F(2.), F(0.5), 4),
        repeater.simulate_feedback(F(2.), F(0.5), 4)
    );
    assert_eq!(repeater.previous_time, F(0.));
}

#[test]
fn reverse_indices_follow_the_sign() {
    let repeater = DelayLineRead::<F>::new();
    assert_eq!(repeater.reverse_indices(F(1.0), F(0.5), 4), F(1.0));
    assert_eq!(repeater.reverse_indices(F(1.0), F(-0.5), 4), F(2.0));
    assert_eq!(repeater.reverse_indices(F(0.0), F(-0.5), 4), F(3.0));
    assert_eq!(repeater.reverse_indices(F(3.0), F(-0.5), 4), F(0.0));
    assert_eq!(repeater.reverse_indices(F(1.0), F(0.0), 4), F(1.0));
    assert_eq!(repeater.reverse_indices(F(1.0), F(-0.0), 4), F(1.0));
    assert_eq!(repeater.reverse_indices(F(1.0), F(f32::NAN), 4), F(2.0));
}

#[test]
fn two_repeats_without_delay_add_the_latest_sample() {
    let mut line = DelayLine::<F>::new(64, F(1000.));
    line.write(F(0.125));
    line.write(F(0.75));
    let mut reader = DelayLineRead::<F>::new();
    // repeat one reads the line at time zero, at unity feedback
    assert_eq!(reader.run(F(0.5), &line, F(0.), 2, F(1.), F(0.)), F(1.25));
}
