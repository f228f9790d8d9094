//! The convolution filter on both sides of the clipper: a ring of sample
//! vectors that is multiplied, newest vector first, with a coefficient table.
use crate::float_ext::{operators_exact, operators_total, FloatExt};
use crate::simd_type::{dot, is_splat_literal, lanes_exact, lanes_total, SimdType};
use vstd::arithmetic::power2::is_pow2;
use vstd::prelude::*;
use vstd::std_specs::ops::MulSpec;

verus! {

/// The filter: its view is the last `len` vectors written, newest first.
pub struct FirFilter<V: SimdType> {
    buffer: Vec<V>,
    coefficients: Vec<V>,
    index: usize,
    zero: V,
    factor: V::Scalar,
}

/// The ring slot that holds the vector written `age` writes before the latest.
pub open spec fn slot_of(index: int, age: int, len: int) -> int {
    if age <= index {
        index - age
    } else {
        index - age + len
    }
}

/// The window after one more write.
pub open spec fn pushed<V>(window: Seq<V>, input: V) -> Seq<V> {
    seq![input] + window.drop_last()
}

/// Each vector of the window with its lanes reversed.
pub open spec fn is_reversed<V: SimdType>(window: Seq<V>, mirrored: Seq<V>) -> bool {
    &&& mirrored.len() == window.len()
    &&& forall|i: int|
        0 <= i < window.len() ==> call_ensures(V::reverse, (window[i],), #[trigger] mirrored[i])
}

/// `filter` is a filter over `coefficients` with silence in its window.
pub open spec fn is_new_fir<V: SimdType>(coefficients: Seq<V>, filter: FirFilter<V>) -> bool {
    &&& filter.wf()
    &&& filter.coefficients() == coefficients
    &&& filter.window().len() == coefficients.len()
    &&& forall|i: int| 0 <= i < filter.window().len() ==> filter.window()[i] == filter.zero()
    &&& is_splat_literal("0", filter.zero())
    &&& exists|lanes: usize| #[trigger]
        call_ensures(V::oversample_factor, (), lanes) && call_ensures(
            V::Scalar::from_usize,
            (lanes,),
            filter.factor(),
        )
}

impl<V: SimdType> FirFilter<V> {
    /// The ring and the table have the same length, a power of two.
    pub closed spec fn wf(&self) -> bool {
        &&& self.buffer.len() == self.coefficients.len()
        &&& is_pow2(self.buffer.len() as int)
        &&& self.index < self.buffer.len()
    }

    /// The coefficient table.
    pub closed spec fn coefficients(&self) -> Seq<V> {
        self.coefficients@
    }

    /// The vector that an empty sum starts from.
    pub closed spec fn zero(&self) -> V {
        self.zero
    }

    /// The oversampling factor as a scalar.
    pub closed spec fn factor(&self) -> V::Scalar {
        self.factor
    }

    /// The vectors written last, newest first.
    pub closed spec fn window(&self) -> Seq<V> {
        Seq::new(
            self.buffer.len() as nat,
            |age: int| self.buffer@[slot_of(self.index as int, age, self.buffer.len() as int)],
        )
    }

    /// The window of a usable filter is as long as its table, and not empty.
    pub proof fn lemma_window_matches_table(&self)
        requires
            self.wf(),
        ensures
            self.window().len() == self.coefficients().len(),
            self.window().len() > 0,
            is_pow2(self.window().len() as int),
    {
        reveal(is_pow2);
    }

    /// A filter over `coefficients` whose window holds the zero vector
    /// throughout.
    pub fn new(coefficients: Vec<V>) -> (filter: Self)
        requires
            is_pow2(coefficients.len() as int),
        ensures
            is_new_fir(coefficients@, filter),
    {
        let length = coefficients.len();
        proof {
            reveal(is_pow2);
        }
        let zero = V::splat(V::Scalar::literal("0"));
        let mut buffer: Vec<V> = Vec::new();
        while buffer.len() < length
            invariant
                buffer.len() <= length,
                forall|i: int| 0 <= i < buffer.len() ==> buffer@[i] == zero,
            decreases length - buffer.len(),
        {
            buffer.push(zero);
        }
        let filter = FirFilter {
            buffer,
            coefficients,
            index: 0,
            zero,
            factor: V::Scalar::from_usize(V::oversample_factor()),
        };
        assert(forall|i: int| 0 <= i < filter.window().len() ==> filter.window()[i] == zero);
        filter
    }

    /// Advances the ring by one slot and stores `input` there.
    pub fn write(&mut self, input: V)
        requires
            old(self).wf(),
        ensures
            final(self).wf(),
            final(self).coefficients() == old(self).coefficients(),
            final(self).zero() == old(self).zero(),
            final(self).factor() == old(self).factor(),
            final(self).window() == pushed(old(self).window(), input),
    {
        self.index = if self.index + 1 == self.buffer.len() {
            0
        } else {
            self.index + 1
        };
        self.buffer[self.index] = input;
        assert(self.window() =~= pushed(old(self).window(), input));
    }

    /// Writes `input`, scaled by the oversampling factor, into every lane and
    /// returns the sum of the window times the table.
    pub fn upsample(&mut self, input: V::Scalar) -> (out: V)
        requires
            old(self).wf(),
            operators_total::<V::Scalar>(),
            lanes_total::<V>(),
        ensures
            final(self).wf(),
            final(self).coefficients() == old(self).coefficients(),
            final(self).zero() == old(self).zero(),
            final(self).factor() == old(self).factor(),
            operators_exact::<V::Scalar>() ==> call_ensures(
                V::splat,
                (input.mul_spec(old(self).factor()),),
                final(self).window()[0],
            ),
            final(self).window().drop_first() == old(self).window().drop_last(),
            lanes_exact::<V>() ==> out == dot(
                final(self).window(),
                final(self).coefficients(),
                final(self).zero(),
            ),
    {
        let spread = V::splat(input * self.factor);
        self.write(spread);
        assert(self.window().drop_first() =~= old(self).window().drop_last());
        let length = self.buffer.len();
        let mut sum = self.zero;
        let mut i: usize = 0;
        while i < length
            invariant
                self.wf(),
                lanes_total::<V>(),
                length == self.buffer.len(),
                i <= length,
                lanes_exact::<V>() ==> sum == dot(
                    self.window().take(i as int),
                    self.coefficients(),
                    self.zero(),
                ),
            decreases length - i,
        {
            let at = if i <= self.index {
                self.index - i
            } else {
                length - (i - self.index)
            };
            proof {
                let next = self.window().take(i + 1);
                assert(next.drop_last() =~= self.window().take(i as int));
                assert(next.last() == self.buffer@[at as int]);
            }
            sum = sum + self.buffer[at] * self.coefficients[i];
            i = i + 1;
        }
        assert(self.window().take(length as int) =~= self.window());
        sum
    }

    /// Writes `input` and returns the lanes, summed, of the sum of the window,
    /// each vector with its lanes reversed, times the table.
    pub fn downsample(&mut self, input: V) -> (out: V::Scalar)
        requires
            old(self).wf(),
            lanes_total::<V>(),
        ensures
            final(self).wf(),
            final(self).coefficients() == old(self).coefficients(),
            final(self).zero() == old(self).zero(),
            final(self).factor() == old(self).factor(),
            final(self).window() == pushed(old(self).window(), input),
            lanes_exact::<V>() ==> exists|mirrored: Seq<V>|
                {
                    &&& #[trigger] is_reversed(final(self).window(), mirrored)
                    &&& call_ensures(
                        V::reduce_sum,
                        (dot(mirrored, final(self).coefficients(), final(self).zero()),),
                        out,
                    )
                },
    {
        self.write(input);
        let length = self.buffer.len();
        let mut sum = self.zero;
        let mut i: usize = 0;
        let ghost mut mirrored: Seq<V> = Seq::empty();
        while i < length
            invariant
                self.wf(),
                lanes_total::<V>(),
                length == self.buffer.len(),
                i <= length,
                mirrored.len() == i,
                forall|j: int|
                    0 <= j < i ==> call_ensures(
                        V::reverse,
                        (self.window()[j],),
                        #[trigger] mirrored[j],
                    ),
                lanes_exact::<V>() ==> sum == dot(mirrored, self.coefficients(), self.zero()),
            decreases length - i,
        {
            let at = if i <= self.index {
                self.index - i
            } else {
                length - (i - self.index)
            };
            let flipped = self.buffer[at].reverse();
            proof {
                assert(self.window()[i as int] == self.buffer@[at as int]);
                let next = mirrored.push(flipped);
                assert(next.drop_last() =~= mirrored);
                mirrored = next;
            }
            sum = sum + flipped * self.coefficients[i];
            i = i + 1;
        }
        proof {
            assert(is_reversed(self.window(), mirrored));
        }
        sum.reduce_sum()
    }
}

/// One write puts its vector at age zero and makes every other vector one
/// write older.
pub proof fn lemma_pushed_ages<V>(window: Seq<V>, input: V)
    requires
        window.len() > 0,
    ensures
        pushed(window, input).len() == window.len(),
        pushed(window, input)[0] == input,
        forall|age: int| 1 <= age < window.len() ==> pushed(window, input)[age] == window[age - 1],
{
}

/// The window after `inputs` have been written to it, one after the other.
pub open spec fn pushes<V>(window: Seq<V>, inputs: Seq<V>) -> Seq<V>
    decreases inputs.len(),
{
    if inputs.len() == 0 || window.len() == 0 {
        window
    } else {
        pushed(pushes(window, inputs.drop_last()), inputs.last())
    }
}

/// A vector that is written now and followed by `later` further writes is
/// found at the age `later.len()`, as long as the window is longer than that:
/// it is paired with the coefficient at that place of the table.
pub proof fn lemma_pushed_position<V>(window: Seq<V>, input: V, later: Seq<V>)
    requires
        later.len() < window.len(),
    ensures
        pushes(window, seq![input] + later).len() == window.len(),
        pushes(window, seq![input] + later)[later.len() as int] == input,
    decreases later.len(),
{
    let all = seq![input] + later;
    if later.len() == 0 {
        assert(all.drop_last() =~= Seq::<V>::empty());
        assert(pushes(window, all.drop_last()) == window);
    } else {
        assert(all.drop_last() =~= seq![input] + later.drop_last());
        lemma_pushed_position(window, input, later.drop_last());
    }
}

} // verus!
