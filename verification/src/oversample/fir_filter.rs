//! The convolution filter of the oversampler: a ring of sample vectors that is
//! multiplied, oldest vector first, with a coefficient table.
use crate::simd_type::{dot, is_splat_literal, lanes_exact, lanes_total, SimdType};
use vstd::arithmetic::power2::is_pow2;
use vstd::prelude::*;

verus! {

/// What the oversampler asks of a filter.
pub trait SimdFir: Sized {
    /// The vector type that the filter works on.
    type Float: SimdType;

    /// The filter is usable.
    spec fn wf(&self) -> bool;

    /// The vectors written last, oldest first.
    spec fn window(&self) -> Seq<Self::Float>;

    /// The coefficient table.
    spec fn coefficients(&self) -> Seq<Self::Float>;

    /// The vector that an empty sum starts from.
    spec fn zero(&self) -> Self::Float;

    /// The window of a usable filter is as long as its table, and not empty.
    proof fn lemma_window_matches_table(&self)
        requires
            self.wf(),
        ensures
            self.window().len() == self.coefficients().len(),
            self.window().len() > 0,
    ;

    /// A filter over `coefficients` whose window holds the zero vector
    /// throughout.
    fn new(coefficients: Vec<Self::Float>) -> (filter: Self)
        requires
            is_pow2(coefficients.len() as int),
        ensures
            filter.wf(),
            filter.coefficients() == coefficients@,
            filter.window().len() == coefficients.len(),
            forall|i: int| 0 <= i < filter.window().len() ==> filter.window()[i] == filter.zero(),
            is_splat_literal("0", filter.zero()),
    ;

    /// Stores `input` as the newest vector; the oldest one leaves the window.
    fn write(&mut self, input: Self::Float)
        requires
            old(self).wf(),
        ensures
            final(self).wf(),
            final(self).coefficients() == old(self).coefficients(),
            final(self).zero() == old(self).zero(),
            final(self).window() == old(self).window().drop_first().push(input),
    ;

    /// The sum of the window times the table.
    fn convolve(&self) -> (out: Self::Float)
        requires
            self.wf(),
            lanes_total::<Self::Float>(),
        ensures
            lanes_exact::<Self::Float>() ==> out == dot(
                self.window(),
                self.coefficients(),
                self.zero(),
            ),
    ;

    /// Writes `input`, then convolves.
    fn process(&mut self, input: Self::Float) -> (out: Self::Float)
        requires
            old(self).wf(),
            lanes_total::<Self::Float>(),
        ensures
            final(self).wf(),
            final(self).coefficients() == old(self).coefficients(),
            final(self).zero() == old(self).zero(),
            final(self).window() == old(self).window().drop_first().push(input),
            lanes_exact::<Self::Float>() ==> out == dot(
                final(self).window(),
                final(self).coefficients(),
                final(self).zero(),
            ),
    ;
}

/// The downsampling filter.
pub struct FirFilter<T> {
    buffer: Vec<T>,
    coefficients: Vec<T>,
    index: usize,
    zero: T,
}

impl<T: SimdType> SimdFir for FirFilter<T> {
    type Float = T;

    closed spec fn wf(&self) -> bool {
        &&& self.buffer.len() == self.coefficients.len()
        &&& is_pow2(self.buffer.len() as int)
        &&& self.index < self.buffer.len()
    }

    closed spec fn window(&self) -> Seq<T> {
        self.buffer@.subrange(self.index as int, self.buffer.len() as int) + self.buffer@.subrange(
            0,
            self.index as int,
        )
    }

    closed spec fn coefficients(&self) -> Seq<T> {
        self.coefficients@
    }

    closed spec fn zero(&self) -> T {
        self.zero
    }

    proof fn lemma_window_matches_table(&self) {
        reveal(is_pow2);
    }

    fn new(coefficients: Vec<T>) -> (filter: Self) {
        let length = coefficients.len();
        proof {
            reveal(is_pow2);
        }
        let zero = T::splat(<T::Scalar as crate::float_ext::FloatExt>::literal("0"));
        let mut buffer: Vec<T> = Vec::new();
        while buffer.len() < length
            invariant
                buffer.len() <= length,
                forall|i: int| 0 <= i < buffer.len() ==> buffer@[i] == zero,
            decreases length - buffer.len(),
        {
            buffer.push(zero);
        }
        FirFilter { buffer, coefficients, index: 0, zero }
    }

    fn process(&mut self, input: T) -> (out: T) {
        self.write(input);
        self.convolve()
    }

    fn write(&mut self, input: T) {
        self.buffer[self.index] = input;
        self.index = if self.index + 1 == self.buffer.len() {
            0
        } else {
            self.index + 1
        };
        assert(self.window() =~= old(self).window().drop_first().push(input));
    }

    fn convolve(&self) -> (out: T) {
        let length = self.buffer.len();
        let mut sum = self.zero;
        let mut i: usize = 0;
        while i < length
            invariant
                self.wf(),
                lanes_total::<T>(),
                length == self.buffer.len(),
                i <= length,
                lanes_exact::<T>() ==> sum == dot(
                    self.window().take(i as int),
                    self.coefficients@,
                    self.zero,
                ),
            decreases length - i,
        {
            let at = if i < length - self.index {
                self.index + i
            } else {
                i - (length - self.index)
            };
            proof {
                let next = self.window().take(i + 1);
                assert(next.drop_last() =~= self.window().take(i as int));
                assert(next.last() == self.buffer@[at as int]);
            }
            sum = sum + self.buffer[at] * self.coefficients[i];
            i = i + 1;
        }
        assert(self.window().take(length as int) =~= self.window());
        sum
    }
}

/// In a window that is written once per sample, a vector that is written now
/// is the newest one, and after `later` further writes it stands that many
/// places before the end: it is paired with the coefficient that many places
/// before the last.
pub proof fn lemma_window_position<V>(window: Seq<V>, input: V, later: Seq<V>)
    requires
        later.len() < window.len(),
    ensures
        writes(window, seq![input] + later).len() == window.len(),
        writes(window, seq![input] + later)[window.len() - 1 - later.len()] == input,
    decreases later.len(),
{
    let all = seq![input] + later;
    if later.len() == 0 {
        assert(all.drop_last() =~= Seq::<V>::empty());
        assert(writes(window, all.drop_last()) == window);
    } else {
        assert(all.drop_last() =~= seq![input] + later.drop_last());
        lemma_window_position(window, input, later.drop_last());
        lemma_writes_len(window, all.drop_last());
    }
}

/// Writing keeps the length of a window.
pub proof fn lemma_writes_len<V>(window: Seq<V>, inputs: Seq<V>)
    ensures
        writes(window, inputs).len() == window.len(),
    decreases inputs.len(),
{
    if inputs.len() > 0 {
        lemma_writes_len(window, inputs.drop_last());
    }
}

/// The window after `inputs` have been written to it, one after the other.
pub open spec fn writes<V>(window: Seq<V>, inputs: Seq<V>) -> Seq<V>
    decreases inputs.len(),
{
    if inputs.len() == 0 || window.len() == 0 {
        window
    } else {
        writes(window, inputs.drop_last()).drop_first().push(inputs.last())
    }
}

} // verus!
