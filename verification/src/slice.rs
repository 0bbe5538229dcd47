//! Length-tolerant bulk copy between slices.
//!
//! Both operations copy the overlapping prefix of a source into a
//! destination of possibly different length, leave the remaining tail of
//! the destination untouched and ignore the remaining tail of the
//! source.  A zero-length source or destination makes them a no-op.

use vstd::math::min;
use vstd::pervasive::cloned;
use vstd::prelude::*;

verus! {

/// Prefix copy between buffers whose elements need a real `Clone` call,
/// slot by slot.
pub trait CloneFromSliceFlex<T: Clone> {
    /// The elements of the buffer.
    spec fn elems(&self) -> Seq<T>;

    /// Copies the first `min(len(self), len(src))` elements of `src`
    /// into the front of `self`, cloning each one.
    fn clone_from_slice_flex(&mut self, src: &[T])
        ensures
            final(self).elems().len() == old(self).elems().len(),
            forall|i: int|
                0 <= i < min(old(self).elems().len() as int, src@.len() as int) ==> cloned::<T>(
                    src@[i],
                    #[trigger] final(self).elems()[i],
                ),
            forall|i: int|
                min(old(self).elems().len() as int, src@.len() as int) <= i < old(
                    self,
                ).elems().len() ==> #[trigger] final(self).elems()[i] == old(self).elems()[i],
    ;
}

/// Prefix copy between buffers of trivially duplicable elements.
pub trait CopyFromSliceFlex<T: Copy> {
    /// The elements of the buffer.
    spec fn elems(&self) -> Seq<T>;

    /// Copies the first `min(len(self), len(src))` elements of `src`
    /// into the front of `self`.
    fn copy_from_slice_flex(&mut self, src: &[T])
        ensures
            final(self).elems().len() == old(self).elems().len(),
            forall|i: int|
                0 <= i < min(old(self).elems().len() as int, src@.len() as int)
                    ==> #[trigger] final(self).elems()[i] == src@[i],
            forall|i: int|
                min(old(self).elems().len() as int, src@.len() as int) <= i < old(
                    self,
                ).elems().len() ==> #[trigger] final(self).elems()[i] == old(self).elems()[i],
    ;
}

impl<T: Clone> CloneFromSliceFlex<T> for [T] {
    open spec fn elems(&self) -> Seq<T> {
        self@
    }

    fn clone_from_slice_flex(&mut self, src: &[T]) {
        let n = if self.len() < src.len() {
            self.len()
        } else {
            src.len()
        };
        let mut i: usize = 0;
        while i < n
            invariant
                n == min(old(self)@.len() as int, src@.len() as int),
                i <= n,
                self@.len() == old(self)@.len(),
                forall|j: int| 0 <= j < i ==> cloned::<T>(src@[j], #[trigger] self@[j]),
                forall|j: int| i <= j < self@.len() ==> #[trigger] self@[j] == old(self)@[j],
            decreases n - i,
        {
            let c = src[i].clone();
            self[i] = c;
            i += 1;
        }
    }
}

impl<T: Copy> CopyFromSliceFlex<T> for [T] {
    open spec fn elems(&self) -> Seq<T> {
        self@
    }

    fn copy_from_slice_flex(&mut self, src: &[T]) {
        let n = if self.len() < src.len() {
            self.len()
        } else {
            src.len()
        };
        let mut i: usize = 0;
        while i < n
            invariant
                n == min(old(self)@.len() as int, src@.len() as int),
                i <= n,
                self@.len() == old(self)@.len(),
                forall|j: int| 0 <= j < i ==> #[trigger] self@[j] == src@[j],
                forall|j: int| i <= j < self@.len() ==> #[trigger] self@[j] == old(self)@[j],
            decreases n - i,
        {
            self[i] = src[i];
            i += 1;
        }
    }
}

} // verus!
