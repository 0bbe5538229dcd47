//! Wrapper capabilities: inner access and representation conversion.
//!
//! A wrapper is an outer type that owns exactly one inner representation
//! value.  Aggregate wrappers store it in a field and convert by field
//! extraction; discriminant wrappers are isomorphic to a fixed-width
//! ordinal encoding and convert by a validated ordinal mapping.

use crate::convert::{AsPtr, AsPtrMut};
use vstd::prelude::*;

verus! {

/// Inner access by copy, for wrappers whose inner representation is
/// trivially duplicable.
pub trait InnerCopy<T> {
    /// The inner representation value the wrapper owns.
    spec fn inner_view(&self) -> T;

    /// Returns a copy of the inner value.
    fn inner(&self) -> (r: T)
        ensures
            r == self.inner_view(),
    ;
}

/// Inner access by reference, following the ordinary shared/exclusive
/// borrow rules of the wrapper itself.
pub trait InnerRefer<T> {
    /// The inner representation value the wrapper owns.
    spec fn inner_view(&self) -> T;

    /// Returns a shared borrow of the inner value.
    fn inner(&self) -> (r: &T)
        ensures
            *r == self.inner_view(),
    ;

    /// Returns an exclusive borrow of the inner value; whatever is left
    /// behind through it is the wrapper's new inner value.
    fn inner_mut(&mut self) -> (r: &mut T)
        ensures
            *r == old(self).inner_view(),
            final(self).inner_view() == *final(r),
    ;
}

/// The conventional aggregate wrapper shape: an outer value owning one
/// inner representation value in its `inner` field, with the full
/// capability set attached in one place so no two capabilities can
/// disagree about which value they reach.
pub struct Wrapper<T> {
    /// The owned inner representation.
    pub inner: T,
}

/// The wrapper that conversion-from-inner builds out of `v`.
pub open spec fn wrapper_of<T>(v: T) -> Wrapper<T> {
    Wrapper { inner: v }
}

impl<T> Wrapper<T> {
    /// Conversion-from-inner: builds the wrapper around `v`.
    pub fn from_inner(v: T) -> (w: Self)
        ensures
            w == wrapper_of(v),
    {
        Wrapper { inner: v }
    }

    /// Terminal conversion-to-inner: consumes the wrapper and moves the
    /// inner value out.
    pub fn into_inner(self) -> (r: T)
        ensures
            r == self.inner,
    {
        self.inner
    }
}

impl<T> From<T> for Wrapper<T> {
    fn from(v: T) -> (r: Self) {
        Wrapper { inner: v }
    }
}

impl<T> vstd::std_specs::convert::FromSpecImpl<T> for Wrapper<T> {
    open spec fn obeys_from_spec() -> bool {
        true
    }

    open spec fn from_spec(v: T) -> Self {
        wrapper_of(v)
    }
}

/// Law: representation conversion by field extraction round-trips in
/// both directions; no inner value and no wrapper is disturbed by going
/// through the other form.
pub proof fn lemma_wrapper_round_trip<T>(v: T, w: Wrapper<T>)
    ensures
        wrapper_of(v).inner == v,
        wrapper_of(w.inner) == w,
{
}

impl<T: Copy> InnerCopy<T> for Wrapper<T> {
    open spec fn inner_view(&self) -> T {
        self.inner
    }

    fn inner(&self) -> (r: T) {
        self.inner
    }
}

impl<T> InnerRefer<T> for Wrapper<T> {
    open spec fn inner_view(&self) -> T {
        self.inner
    }

    fn inner(&self) -> (r: &T) {
        &self.inner
    }

    fn inner_mut(&mut self) -> (r: &mut T) {
        &mut self.inner
    }
}

impl<T> AsPtr<T> for Wrapper<T> {
    open spec fn target(&self) -> T {
        self.inner
    }

    fn as_target(&self) -> (r: &T) {
        &self.inner
    }
}

impl<T> AsPtrMut<T> for Wrapper<T> {
    fn as_target_mut(&mut self) -> (r: &mut T) {
        &mut self.inner
    }
}

impl<T> AsPtr<Wrapper<T>> for Wrapper<T> {
    open spec fn target(&self) -> Wrapper<T> {
        *self
    }

    fn as_target(&self) -> (r: &Wrapper<T>) {
        self
    }
}

impl<T> AsPtrMut<Wrapper<T>> for Wrapper<T> {
    fn as_target_mut(&mut self) -> (r: &mut Wrapper<T>) {
        self
    }
}

/// Law: the pointer view of an aggregate wrapper designates exactly the
/// value stored in its `inner` field.
pub proof fn lemma_wrapper_as_ptr_targets_inner<T>(w: Wrapper<T>)
    ensures
        <Wrapper<T> as AsPtr<T>>::target(&w) == w.inner,
{
}

/// Discriminant/tag wrappers: types isomorphic to a fixed-width ordinal
/// encoding shared with a foreign counterpart.
///
/// Instead of reinterpreting bits unchecked, conversion-from-inner goes
/// through [`TagRepr::from_ordinal`], which validates the ordinal and
/// rejects values outside the discriminant set.  The two proof
/// obligations pin the encoding down: every value's ordinal is legal,
/// and no two values share an ordinal.
pub trait TagRepr: Sized {
    /// The ordinal this value encodes.
    spec fn ordinal_spec(self) -> u32;

    /// The set of ordinals the discriminant set covers.
    spec fn is_legal(v: u32) -> bool;

    /// Every value encodes a legal ordinal.
    proof fn lemma_ordinal_legal(self)
        ensures
            Self::is_legal(self.ordinal_spec()),
    ;

    /// Distinct values encode distinct ordinals.
    proof fn lemma_ordinal_injective(self, other: Self)
        requires
            self.ordinal_spec() == other.ordinal_spec(),
        ensures
            self == other,
    ;

    /// Conversion-to-inner: the ordinal as carried across the boundary.
    fn into_ordinal(self) -> (v: u32)
        ensures
            v == self.ordinal_spec(),
    ;

    /// Validated conversion-from-inner: maps an ordinal back to the
    /// value encoding it, rejecting ordinals outside the discriminant
    /// set.
    fn from_ordinal(v: u32) -> (r: Option<Self>)
        ensures
            r is Some <==> Self::is_legal(v),
            r matches Some(t) ==> t.ordinal_spec() == v,
    ;
}

/// Converts a tag value of one type into the tag type sharing its
/// ordinal encoding, validating the ordinal on the way in.
pub fn convert_tag<A: TagRepr, B: TagRepr>(a: A) -> (r: Option<B>)
    ensures
        r is Some <==> B::is_legal(a.ordinal_spec()),
        r matches Some(b) ==> b.ordinal_spec() == a.ordinal_spec(),
{
    B::from_ordinal(a.into_ordinal())
}

/// Law: validating a tag value's own ordinal back into its type yields
/// exactly the original value.  The hypotheses are what
/// [`TagRepr::from_ordinal`] guarantees at that ordinal, so any round
/// trip through the ordinal encoding restores the value it started
/// from.
pub proof fn lemma_tag_round_trip<T: TagRepr>(t: T, r: Option<T>)
    requires
        r is Some <==> T::is_legal(t.ordinal_spec()),
        r matches Some(u) ==> u.ordinal_spec() == t.ordinal_spec(),
    ensures
        r == Some(t),
{
    t.lemma_ordinal_legal();
    let u = r->Some_0;
    u.lemma_ordinal_injective(t);
}

/// A small mode tag with three variants, the canonical discriminant
/// wrapper: its foreign counterpart encodes the same three modes as the
/// ordinals zero, one and two.
#[derive(Clone, Copy, Debug, PartialEq, Eq, Structural)]
pub enum Mode {
    /// Encoded as ordinal zero.
    A,
    /// Encoded as ordinal one.
    B,
    /// Encoded as ordinal two.
    C,
}

impl TagRepr for Mode {
    open spec fn ordinal_spec(self) -> u32 {
        match self {
            Mode::A => 0,
            Mode::B => 1,
            Mode::C => 2,
        }
    }

    open spec fn is_legal(v: u32) -> bool {
        v < 3
    }

    proof fn lemma_ordinal_legal(self) {
    }

    proof fn lemma_ordinal_injective(self, other: Self) {
    }

    fn into_ordinal(self) -> (v: u32) {
        match self {
            Mode::A => 0,
            Mode::B => 1,
            Mode::C => 2,
        }
    }

    fn from_ordinal(v: u32) -> (r: Option<Self>) {
        if v == 0 {
            Some(Mode::A)
        } else if v == 1 {
            Some(Mode::B)
        } else if v == 2 {
            Some(Mode::C)
        } else {
            None
        }
    }
}

} // verus!
