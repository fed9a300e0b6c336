//! All of our preprocessing iterators: lazy transforms over sequences of
//! samples, used to get the laser stripe out of the frames of a scan.

use vstd::prelude::*;
use vstd::std_specs::iter::IteratorSpec;
use std::marker::PhantomData;

verus! {

/// The first item of a sequence, if there is one.
pub open spec fn head<T>(s: Seq<T>) -> Option<T> {
    if s.len() > 0 {
        Some(s[0])
    } else {
        None
    }
}

/// What is left of a sequence once its first item is taken.
pub open spec fn after_one<T>(s: Seq<T>) -> Seq<T> {
    if s.len() > 0 {
        s.drop_first()
    } else {
        s
    }
}

/// What is left of a sequence once its first two items are taken.
pub open spec fn after_pair<T>(s: Seq<T>) -> Seq<T> {
    after_one(after_one(s))
}

/// A sequence of interleaved luma and chroma samples without the chroma:
/// the items at the even places, in their order.
pub open spec fn strip_chroma<T>(source: Seq<T>) -> Seq<T> {
    Seq::new(((source.len() + 1) / 2) as nat, |i: int| source[2 * i])
}

/// The chroma-free sequence begins with the first sample, and goes on with
/// the chroma-free rest after the first pair.
pub proof fn lemma_strip_chroma_unfolds<T>(source: Seq<T>)
    ensures
        strip_chroma(source) == (match head(source) {
            None => Seq::empty(),
            Some(first) => seq![first] + strip_chroma(after_pair(source)),
        }),
        head(strip_chroma(source)) == head(source),
        after_one(strip_chroma(source)) == strip_chroma(after_pair(source)),
{
    if source.len() > 0 {
        let rest = strip_chroma(after_pair(source));
        assert(strip_chroma(source) =~= seq![source[0]] + rest);
        assert(after_one(strip_chroma(source)) =~= rest);
    } else {
        assert(strip_chroma(source) =~= Seq::empty());
        assert(strip_chroma(after_pair(source)) =~= Seq::empty());
    }
}

/// Stripping the chroma from a sequence of even length halves it: the
/// samples of the result are, one for one and in their order, the samples at
/// the even places of the source. An empty source gives an empty result.
pub proof fn lemma_strip_chroma_halves<T>(source: Seq<T>)
    requires
        source.len() % 2 == 0,
    ensures
        strip_chroma(source).len() * 2 == source.len(),
        forall|i: int|
            0 <= i < strip_chroma(source).len() ==> #[trigger] strip_chroma(source)[i] == source[2
                * i],
        forall|k: int|
            0 <= k < source.len() && k % 2 == 0 ==> #[trigger] source[k] == strip_chroma(
                source,
            )[k / 2],
        source.len() == 0 ==> strip_chroma(source) == Seq::<T>::empty(),
{
    assert(source.len() == 0 ==> strip_chroma(source) =~= Seq::<T>::empty());
}

/// Interleaved luma and chroma: each luma sample followed by its chroma sample.
pub open spec fn interleave<T>(luma: Seq<T>, chroma: Seq<T>) -> Seq<T>
    recommends
        luma.len() == chroma.len(),
{
    Seq::new(
        2 * luma.len(),
        |k: int|
            if k % 2 == 0 {
                luma[k / 2]
            } else {
                chroma[k / 2]
            },
    )
}

/// Stripping the chroma gives back the luma, whatever the chroma was.
pub proof fn lemma_strip_chroma_recovers_luma<T>(luma: Seq<T>, chroma: Seq<T>)
    requires
        luma.len() == chroma.len(),
    ensures
        strip_chroma(interleave(luma, chroma)) == luma,
{
    assert(strip_chroma(interleave(luma, chroma)) =~= luma);
}

/// An iterator over the luma samples of a source of interleaved samples.
#[verifier::reject_recursive_types(I)]
#[verifier::reject_recursive_types(J)]
pub struct ChromaStripIter<'a, I, J> where I: Iterator<Item = &'a J>, J: 'a {
    i: I,
    marker: PhantomData<&'a J>,
}

impl<'a, I, J> ChromaStripIter<'a, I, J> where I: Iterator<Item = &'a J>, J: 'a {
    /// The source that the samples are taken from.
    pub closed spec fn source(self) -> I {
        self.i
    }

    /// The next luma sample, if the source has one left. The chroma sample
    /// that follows it in the source is taken and dropped.
    pub fn next(&mut self) -> (val: Option<&'a J>)
        ensures
            old(self).source().obeys_prophetic_iter_laws() ==> {
                &&& final(self).source().obeys_prophetic_iter_laws()
                &&& val == head(old(self).source().remaining())
                &&& final(self).source().remaining() == after_pair(
                    old(self).source().remaining(),
                )
            },
    {
        let val = self.i.next();
        if val.is_some() {
            let _ = self.i.next();
        }
        val
    }
}

/// Strip chroma information from a yuyv image, returning yy (4:2:2->4:0:0)
pub fn strip_chroma_yuyv<'a, I, J>(source: I) -> (r: ChromaStripIter<'a, I, J>) where
    I: Iterator<Item = &'a J>,
    J: 'a,

    ensures
        r.source() == source,
{
    ChromaStripIter { i: source, marker: PhantomData }
}

/// A numeric sample: a value of an integer type, taken for the number it
/// stands for.
pub trait Sample: Copy {
    /// The number that the sample stands for.
    spec fn value(self) -> int;

    /// The largest number that a sample of this type can stand for.
    spec fn ceiling() -> int;

    /// No sample is above the ceiling, zero is not above it, and two samples
    /// that stand for one number are the same.
    proof fn lemma_sample(a: Self, b: Self)
        ensures
            a.value() <= Self::ceiling(),
            0 <= Self::ceiling(),
            a.value() == b.value() ==> a == b,
    ;

    /// The sample that stands for zero.
    fn zero() -> (z: Self)
        ensures
            z.value() == 0,
    ;

    /// Whether this sample is greater than the other.
    fn exceeds(self, other: Self) -> (b: bool)
        ensures
            b == (self.value() > other.value()),
    ;

    /// This sample less the other, which is not greater; the ceiling where
    /// the type has no sample for the difference.
    fn minus(self, other: Self) -> (d: Self)
        requires
            self.value() >= other.value(),
        ensures
            d.value() == difference(self.value(), other.value(), Self::ceiling()),
    ;
}

/// The minuend less the subtrahend, kept within zero and the ceiling: zero
/// where the subtrahend is the greater one.
pub open spec fn difference(minuend: int, subtrahend: int, ceiling: int) -> int {
    if subtrahend > minuend {
        0
    } else if minuend - subtrahend > ceiling {
        ceiling
    } else {
        minuend - subtrahend
    }
}

/// The numbers that the samples of a sequence stand for.
pub open spec fn values<'a, J: Sample>(samples: Seq<&'a J>) -> Seq<int> {
    Seq::new(samples.len(), |i: int| samples[i].value())
}

/// Two sequences subtracted place by place, as far as the shorter one goes.
pub open spec fn subtract_values(minuend: Seq<int>, subtrahend: Seq<int>, ceiling: int) -> Seq<
    int,
> {
    Seq::new(
        if minuend.len() <= subtrahend.len() {
            minuend.len()
        } else {
            subtrahend.len()
        },
        |i: int| difference(minuend[i], subtrahend[i], ceiling),
    )
}

/// The difference of two sequences is empty where one of them is, and else
/// begins with the difference of their first items and goes on with the
/// difference of their rests.
pub proof fn lemma_subtract_values_unfolds(minuend: Seq<int>, subtrahend: Seq<int>, ceiling: int)
    ensures
        subtract_values(minuend, subtrahend, ceiling) == (match (head(minuend), head(subtrahend)) {
            (Some(m), Some(s)) => seq![difference(m, s, ceiling)] + subtract_values(
                after_one(minuend),
                after_one(subtrahend),
                ceiling,
            ),
            _ => Seq::empty(),
        }),
{
    if minuend.len() > 0 && subtrahend.len() > 0 {
        assert(subtract_values(minuend, subtrahend, ceiling) =~= seq![
            difference(minuend[0], subtrahend[0], ceiling),
        ] + subtract_values(after_one(minuend), after_one(subtrahend), ceiling));
    } else {
        assert(subtract_values(minuend, subtrahend, ceiling) =~= Seq::empty());
    }
}

/// Subtracting zeros changes nothing, as long as no sample is negative and
/// none is above the ceiling.
pub proof fn lemma_subtract_zeros(minuend: Seq<int>, zeros: Seq<int>, ceiling: int)
    requires
        zeros.len() == minuend.len(),
        forall|i: int| 0 <= i < zeros.len() ==> zeros[i] == 0,
        forall|i: int| 0 <= i < minuend.len() ==> 0 <= #[trigger] minuend[i] <= ceiling,
    ensures
        subtract_values(minuend, zeros, ceiling) == minuend,
{
    assert(subtract_values(minuend, zeros, ceiling) =~= minuend);
}

/// Samples that stand for the differences of non-negative samples and
/// zeros are those samples themselves.
pub proof fn lemma_subtract_zeros_keeps_samples<'a, J: Sample>(
    minuend: Seq<&'a J>,
    zeros: Seq<&'a J>,
    out: Seq<J>,
)
    requires
        zeros.len() == minuend.len(),
        forall|i: int| 0 <= i < zeros.len() ==> (#[trigger] zeros[i]).value() == 0,
        forall|i: int| 0 <= i < minuend.len() ==> (#[trigger] minuend[i]).value() >= 0,
        out.len() == minuend.len(),
        forall|i: int|
            0 <= i < out.len() ==> (#[trigger] out[i]).value() == subtract_values(
                values(minuend),
                values(zeros),
                J::ceiling(),
            )[i],
    ensures
        forall|i: int| 0 <= i < out.len() ==> #[trigger] out[i] == *minuend[i],
{
    assert forall|i: int| 0 <= i < out.len() implies #[trigger] out[i] == *minuend[i] by {
        J::lemma_sample(*minuend[i], out[i]);
        J::lemma_sample(out[i], *minuend[i]);
        assert(zeros[i].value() == 0);
        assert(minuend[i].value() >= 0);
    }
}

/// Where the subtrahend is the greater one the difference is zero, and it
/// is never negative.
pub proof fn lemma_difference_clamps(minuend: int, subtrahend: int, ceiling: int)
    requires
        0 <= ceiling,
    ensures
        subtrahend > minuend ==> difference(minuend, subtrahend, ceiling) == 0,
        0 <= difference(minuend, subtrahend, ceiling) <= ceiling,
        minuend >= subtrahend && minuend - subtrahend <= ceiling ==> difference(
            minuend,
            subtrahend,
            ceiling,
        ) == minuend - subtrahend,
{
}

/// An iterator over the differences of two sources of samples.
#[verifier::reject_recursive_types(I)]
#[verifier::reject_recursive_types(J)]
pub struct SubtractIter<'a, I, J> where I: Iterator<Item = &'a J> + 'a, J: Sample + 'a {
    minuend: I,
    subtrahend: I,
    marker: PhantomData<&'a J>,
}

impl<'a, I, J> SubtractIter<'a, I, J> where I: Iterator<Item = &'a J> + 'a, J: Sample + 'a {
    /// The source of the samples that are subtracted from.
    pub closed spec fn minuend(self) -> I {
        self.minuend
    }

    /// The source of the samples that are subtracted.
    pub closed spec fn subtrahend(self) -> I {
        self.subtrahend
    }

    /// The next difference, if both sources have a sample left. Each source
    /// gives up one sample, if it has one.
    pub fn next(&mut self) -> (val: Option<J>)
        ensures
            old(self).minuend().obeys_prophetic_iter_laws() && old(self).subtrahend().obeys_prophetic_iter_laws() ==> {
                &&& final(self).minuend().obeys_prophetic_iter_laws()
                &&& final(self).subtrahend().obeys_prophetic_iter_laws()
                &&& final(self).minuend().remaining() == after_one(old(self).minuend().remaining())
                &&& final(self).subtrahend().remaining() == after_one(
                    old(self).subtrahend().remaining(),
                )
                &&& match (
                    head(old(self).minuend().remaining()),
                    head(old(self).subtrahend().remaining()),
                ) {
                    (Some(m), Some(s)) => val matches Some(d) && d.value() == difference(
                        m.value(),
                        s.value(),
                        J::ceiling(),
                    ),
                    _ => val is None,
                }
            },
    {
        let m = self.minuend.next();
        let s = self.subtrahend.next();
        match m {
            None => None,
            Some(m) => match s {
                None => None,
                Some(s) => Some(
                    if s.exceeds(*m) {
                        J::zero()
                    } else {
                        m.minus(*s)
                    },
                ),
            },
        }
    }
}

/// The differences of two sources of samples, place by place: for each
/// pair the minuend less the subtrahend, and zero where that would be below
/// zero. It ends where the shorter source ends.
pub fn subtract<'a, I, J>(minuend: I, subtrahend: I) -> (r: SubtractIter<'a, I, J>) where
    I: Iterator<Item = &'a J>,
    J: Sample + 'a,

    ensures
        r.minuend() == minuend,
        r.subtrahend() == subtrahend,
{
    SubtractIter { minuend: minuend, subtrahend: subtrahend, marker: PhantomData }
}

impl Sample for u8 {
    open spec fn value(self) -> int {
        self as int
    }

    open spec fn ceiling() -> int {
        u8::MAX as int
    }

    proof fn lemma_sample(a: Self, b: Self) {
    }

    fn zero() -> (z: Self) {
        0
    }

    fn exceeds(self, other: Self) -> (b: bool) {
        self > other
    }

    fn minus(self, other: Self) -> (d: Self) {
        self - other
    }
}

impl Sample for u16 {
    open spec fn value(self) -> int {
        self as int
    }

    open spec fn ceiling() -> int {
        u16::MAX as int
    }

    proof fn lemma_sample(a: Self, b: Self) {
    }

    fn zero() -> (z: Self) {
        0
    }

    fn exceeds(self, other: Self) -> (b: bool) {
        self > other
    }

    fn minus(self, other: Self) -> (d: Self) {
        self - other
    }
}

impl Sample for u32 {
    open spec fn value(self) -> int {
        self as int
    }

    open spec fn ceiling() -> int {
        u32::MAX as int
    }

    proof fn lemma_sample(a: Self, b: Self) {
    }

    fn zero() -> (z: Self) {
        0
    }

    fn exceeds(self, other: Self) -> (b: bool) {
        self > other
    }

    fn minus(self, other: Self) -> (d: Self) {
        self - other
    }
}

impl Sample for u64 {
    open spec fn value(self) -> int {
        self as int
    }

    open spec fn ceiling() -> int {
        u64::MAX as int
    }

    proof fn lemma_sample(a: Self, b: Self) {
    }

    fn zero() -> (z: Self) {
        0
    }

    fn exceeds(self, other: Self) -> (b: bool) {
        self > other
    }

    fn minus(self, other: Self) -> (d: Self) {
        self - other
    }
}

impl Sample for i8 {
    open spec fn value(self) -> int {
        self as int
    }

    open spec fn ceiling() -> int {
        i8::MAX as int
    }

    proof fn lemma_sample(a: Self, b: Self) {
    }

    fn zero() -> (z: Self) {
        0
    }

    fn exceeds(self, other: Self) -> (b: bool) {
        self > other
    }

    fn minus(self, other: Self) -> (d: Self) {
        let wide: i16 = self as i16 - other as i16;
        if wide > i8::MAX as i16 {
            i8::MAX
        } else {
            wide as i8
        }
    }
}

impl Sample for i16 {
    open spec fn value(self) -> int {
        self as int
    }

    open spec fn ceiling() -> int {
        i16::MAX as int
    }

    proof fn lemma_sample(a: Self, b: Self) {
    }

    fn zero() -> (z: Self) {
        0
    }

    fn exceeds(self, other: Self) -> (b: bool) {
        self > other
    }

    fn minus(self, other: Self) -> (d: Self) {
        let wide: i32 = self as i32 - other as i32;
        if wide > i16::MAX as i32 {
            i16::MAX
        } else {
            wide as i16
        }
    }
}

impl Sample for i32 {
    open spec fn value(self) -> int {
        self as int
    }

    open spec fn ceiling() -> int {
        i32::MAX as int
    }

    proof fn lemma_sample(a: Self, b: Self) {
    }

    fn zero() -> (z: Self) {
        0
    }

    fn exceeds(self, other: Self) -> (b: bool) {
        self > other
    }

    fn minus(self, other: Self) -> (d: Self) {
        let wide: i64 = self as i64 - other as i64;
        if wide > i32::MAX as i64 {
            i32::MAX
        } else {
            wide as i32
        }
    }
}

impl Sample for i64 {
    open spec fn value(self) -> int {
        self as int
    }

    open spec fn ceiling() -> int {
        i64::MAX as int
    }

    proof fn lemma_sample(a: Self, b: Self) {
    }

    fn zero() -> (z: Self) {
        0
    }

    fn exceeds(self, other: Self) -> (b: bool) {
        self > other
    }

    fn minus(self, other: Self) -> (d: Self) {
        let wide: i128 = self as i128 - other as i128;
        if wide > i64::MAX as i128 {
            i64::MAX
        } else {
            wide as i64
        }
    }
}

} // verus!
