//! Images held in memory, and arithmetic on them.

use vstd::prelude::*;
use vstd::std_specs::iter::IteratorSpec;
use vstd::std_specs::ops::SubSpec;
use std::ops::Sub;

verus! {

/// An image in memory: its pixels row by row.
#[derive(Debug)]
pub struct MemImage<P> {
    pub size: (usize, usize),
    pub data: Vec<P>,
    pub stride: usize,
}

impl<P> MemImage<P> {
    /// The image of the given size whose pixels are the items of `i`, in
    /// their order. The stride is the second part of the size.
    pub fn from_iterator<I>(i: I, sz: (usize, usize)) -> (image: MemImage<P>) where
        I: Iterator<Item = P>,

        requires
            i.obeys_prophetic_iter_laws(),
            i.decrease() is Some,
        ensures
            image.size == sz,
            image.stride == sz.1,
            image.data@ == i.remaining(),
    {
        let (_, stride) = sz;
        let mut source = i;
        let mut v: Vec<P> = Vec::new();
        loop
            invariant
                source.obeys_prophetic_iter_laws(),
                source.decrease() is Some,
                v@ + source.remaining() == i.remaining(),
            ensures
                v@ == i.remaining(),
            decreases source.decrease()->0,
        {
            match source.next() {
                Some(pixel) => {
                    v.push(pixel);
                },
                None => {
                    break ;
                },
            }
        }
        MemImage { size: sz, stride: stride, data: v }
    }
}

impl<P: Sub<P, Output = P> + Copy> MemImage<P> {
    /// Whether the pixel at place `i` is one that `subtract` changes: both
    /// images have a pixel there.
    pub open spec fn overlaps(self, other: MemImage<P>, i: int) -> bool {
        0 <= i < self.data@.len() && i < other.data@.len()
    }

    /// Subtracts the other image from this one, pixel by pixel, as far as
    /// the shorter of the two goes. The pixels beyond stay as they are.
    pub fn subtract(&mut self, other: MemImage<P>)
        requires
            forall|i: int|
                #![trigger old(self).data@[i]]
                old(self).overlaps(other, i) ==> old(self).data@[i].sub_req(other.data@[i]),
        ensures
            final(self).size == old(self).size,
            final(self).stride == old(self).stride,
            final(self).data@.len() == old(self).data@.len(),
            forall|i: int|
                #![trigger final(self).data@[i]]
                0 <= i < old(self).data@.len() && !old(self).overlaps(other, i) ==> final(self).data@[i] == old(self).data@[i],
            <P as SubSpec<P>>::obeys_sub_spec() ==> forall|i: int|
                #![trigger final(self).data@[i]]
                old(self).overlaps(other, i) ==> final(self).data@[i] == old(self).data@[i].sub_spec(other.data@[i]),
    {
        let n = if self.data.len() <= other.data.len() {
            self.data.len()
        } else {
            other.data.len()
        };
        let mut k: usize = 0;
        while k < n
            invariant
                k <= n,
                n <= self.data@.len(),
                n <= other.data@.len(),
                n == self.data@.len() || n == other.data@.len(),
                self.size == old(self).size,
                self.stride == old(self).stride,
                self.data@.len() == old(self).data@.len(),
                forall|i: int|
                    #![trigger old(self).data@[i]]
                    old(self).overlaps(other, i) ==> old(self).data@[i].sub_req(other.data@[i]),
                forall|i: int|
                    #![trigger self.data@[i]]
                    k <= i < self.data@.len() ==> self.data@[i] == old(self).data@[i],
                <P as SubSpec<P>>::obeys_sub_spec() ==> forall|i: int|
                    #![trigger self.data@[i]]
                    0 <= i < k ==> self.data@[i] == old(self).data@[i].sub_spec(other.data@[i]),
            decreases n - k,
        {
            let p = self.data[k];
            let d = other.data[k];
            assert(old(self).overlaps(other, k as int));
            let v = p.sub(d);
            self.data.set(k, v);
            k = k + 1;
        }
    }
}

} // verus!
