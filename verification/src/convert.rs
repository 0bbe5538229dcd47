//! Pointer-view capabilities: read and write access paths to a target
//! value reachable from a borrowed carrier.
//!
//! Handing out a raw address from a shared borrow has no checked
//! counterpart, so the capability is stated over borrows: every access
//! path a carrier exposes is tied by contract to the one target value
//! the capability designates.  The mutable view therefore demands an
//! exclusive borrow of the carrier instead of relying on a
//! caller-asserted aliasing discipline.

use vstd::prelude::*;

verus! {

/// Read-only view of a target value reachable from `Self` by borrowing.
///
/// The provided method [`AsPtr::as_ptr`] is derived from the required
/// borrow-access operation [`AsPtr::as_target`], so the two can never
/// disagree about which value they designate.
pub trait AsPtr<T> {
    /// The target value this capability designates.
    spec fn target(&self) -> T;

    /// Borrow-access: the underlying borrow the capability derives from.
    fn as_target(&self) -> (r: &T)
        ensures
            *r == self.target(),
    ;

    /// Read-only access path to the designated target.
    fn as_ptr(&self) -> (r: &T)
        ensures
            *r == self.target(),
    {
        self.as_target()
    }
}

/// Writable view of the target value, available only where [`AsPtr`] is
/// already attached.
///
/// Writing through the returned borrow deterministically updates the
/// value later observed through any read path of the same carrier: the
/// contract ties the carrier's final target to the value left behind.
pub trait AsPtrMut<T>: AsPtr<T> {
    /// Exclusive borrow-access to the designated target.
    fn as_target_mut(&mut self) -> (r: &mut T)
        ensures
            *r == old(self).target(),
            final(self).target() == *final(r),
    ;

    /// Writable access path to the designated target.
    fn as_ptr_mut(&mut self) -> (r: &mut T)
        ensures
            *r == old(self).target(),
            final(self).target() == *final(r),
    {
        self.as_target_mut()
    }
}

impl<T: AsPtr<U>, U> AsPtr<U> for &T {
    open spec fn target(&self) -> U {
        (**self).target()
    }

    fn as_target(&self) -> (r: &U) {
        (**self).as_target()
    }
}

impl<T: AsPtr<U>, U> AsPtr<U> for &mut T {
    open spec fn target(&self) -> U {
        (**self).target()
    }

    fn as_target(&self) -> (r: &U) {
        (**self).as_target()
    }
}

impl<T: AsPtrMut<U>, U> AsPtrMut<U> for &mut T {
    fn as_target_mut(&mut self) -> (r: &mut U) {
        (**self).as_target_mut()
    }
}

/// Law: a carrier seen through one extra layer of shared borrowing
/// designates the same target as the carrier itself.
pub proof fn lemma_borrow_forwards_target<T: AsPtr<U>, U>(t: &T)
    ensures
        <&T as AsPtr<U>>::target(&t) == t.target(),
{
}

} // verus!
