//! The container and its lifecycle: build, borrow, take out, duplicate.
//!
//! A container is modelled by two things: the value it owns (its view, `@`)
//! and its storage mode (`stored_inline`). The mode is a function of the
//! payload type alone, so it is the same for every container of one type and
//! never changes while a container lives.

use crate::layout::{can_inline, fits_inline};
use vstd::layout::{align_of, size_of};
use vstd::prelude::*;

verus! {

/// Where a container keeps its value. A container of a given payload type
/// only ever uses one of the two variants.
#[derive(Debug)]
enum Slot<T> {
    /// The value itself, in place.
    Inline(T),
    /// The sole owner of one heap allocation that holds the value.
    Indirect(Box<T>),
}

impl<T> Slot<T> {
    /// The value, wherever it is kept.
    spec fn value(&self) -> T {
        match *self {
            Slot::Inline(v) => v,
            Slot::Indirect(b) => *b,
        }
    }

    /// Borrows the value for writing. The variant stays as it is, whatever
    /// is written.
    fn value_mut(&mut self) -> (r: &mut T)
        ensures
            *r == old(self).value(),
            final(self).value() == *final(r),
            (*final(self) is Inline) == (*old(self) is Inline),
        no_unwind
    {
        match self {
            Slot::Inline(v) => v,
            Slot::Indirect(b) => &mut **b,
        }
    }
}

/// Owns exactly one `T`: in place when `T` fits in a machine word, on the
/// heap when it does not.
///
/// Dropping a container drops the value it owns, and frees the allocation
/// if there is one. `take` moves the value out instead.
#[derive(Debug)]
pub struct InlinableBox<T> {
    slot: Slot<T>,
}

impl<T> View for InlinableBox<T> {
    type V = T;

    /// The value that the container owns.
    closed spec fn view(&self) -> T {
        self.slot.value()
    }
}

impl<T> InlinableBox<T> {
    /// Whether the value lies in the container itself rather than on the
    /// heap.
    pub closed spec fn stored_inline(&self) -> bool {
        self.slot is Inline
    }

    /// The invariant of the type: the storage mode of a container is the one
    /// that its payload type calls for.
    #[verifier::type_invariant]
    pub open spec fn wf(&self) -> bool {
        self.stored_inline() == fits_inline::<T>()
    }

    /// The container that `new` builds around `item`.
    pub closed spec fn spec_new(item: T) -> Self {
        if fits_inline::<T>() {
            InlinableBox { slot: Slot::Inline(item) }
        } else {
            InlinableBox { slot: Slot::Indirect(Box::new(item)) }
        }
    }

    /// Builds a container that owns `item`. The value is kept in place if
    /// `T` fits in a machine word; otherwise it is moved to a fresh heap
    /// allocation that the container alone owns.
    #[verifier::when_used_as_spec(spec_new)]
    pub fn new(item: T) -> (r: InlinableBox<T>)
        ensures
            r == Self::spec_new(item),
            r@ == item,
            r.stored_inline() == fits_inline::<T>(),
    {
        if can_inline::<T>() {
            InlinableBox { slot: Slot::Inline(item) }
        } else {
            InlinableBox { slot: Slot::Indirect(Box::new(item)) }
        }
    }

    /// Reports the storage mode of this container, read off the container
    /// itself. It is always the mode that `T` calls for.
    pub fn is_inline(&self) -> (b: bool)
        ensures
            b == self.stored_inline(),
            b == fits_inline::<T>(),
    {
        proof {
            use_type_invariant(self);
        }
        match &self.slot {
            Slot::Inline(_) => true,
            Slot::Indirect(_) => false,
        }
    }

    /// Retires the container and hands its value to the caller. The value is
    /// moved, not dropped; an allocation that held it is freed.
    pub fn take(self) -> (item: T)
        ensures
            item == self@,
    {
        match self.slot {
            Slot::Inline(v) => v,
            Slot::Indirect(b) => *b,
        }
    }
}

impl<T> core::ops::Deref for InlinableBox<T> {
    type Target = T;

    /// Borrows the value for reading.
    fn deref(&self) -> (r: &T)
        ensures
            *r == self@,
    {
        match &self.slot {
            Slot::Inline(v) => v,
            Slot::Indirect(b) => &**b,
        }
    }
}

impl<T> core::ops::DerefMut for InlinableBox<T> {
    /// Borrows the value for writing. When the borrow ends the container
    /// owns whatever was written last, in the storage mode it had before.
    fn deref_mut(&mut self) -> (r: &mut T)
        ensures
            *r == old(self)@,
            final(self)@ == *final(r),
            final(self).stored_inline() == old(self).stored_inline(),
    {
        proof {
            use_type_invariant(&*self);
        }
        self.slot.value_mut()
    }
}

impl<T: Clone> Clone for InlinableBox<T> {
    /// Builds a second container, as `new` does, around a clone of the
    /// value. The two containers share nothing.
    fn clone(&self) -> (r: Self)
        ensures
            cloned::<T>(self@, r@),
            r == InlinableBox::new(r@),
            r.stored_inline() == self.stored_inline(),
            r.stored_inline() == fits_inline::<T>(),
    {
        proof {
            use_type_invariant(self);
        }
        InlinableBox::new((**self).clone())
    }
}

/// Round trip: a container built around `v` owns `v`, so the value taken out
/// of it is `v` again.
pub proof fn lemma_round_trip<T>(v: T)
    ensures
        InlinableBox::new(v)@ == v,
{
}

/// Mode correctness: a container is built with its value in place exactly
/// when the payload is no larger than a machine word and no more strictly
/// aligned, and so it meets the invariant of the type.
pub proof fn lemma_mode_correct<T>(v: T)
    ensures
        InlinableBox::new(v).stored_inline() <==> size_of::<T>() <= size_of::<usize>()
            && align_of::<T>() <= align_of::<usize>(),
        InlinableBox::new(v).wf(),
{
}

/// Tries the size rule on two sample payloads: the unit type, which has no
/// bytes, is kept in place; a 128-bit integer, wider than any machine word,
/// is kept on the heap. Returns whether both containers came out that way,
/// which they always do.
pub fn _size_test() -> (ok: bool)
    ensures
        ok,
{
    broadcast use vstd::layout::group_layout_axioms;

    let small = InlinableBox::new(());
    let large = InlinableBox::new(0u128);
    small.is_inline() && !large.is_inline()
}

} // verus!
