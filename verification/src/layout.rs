//! The capability predicate: which payload types are stored in place.

use vstd::layout::{align_of, size_of};
use vstd::prelude::*;

verus! {

/// A payload type fits in the slot when it is no larger than a machine word
/// and asks for no stricter alignment than a machine word.
///
/// The predicate depends on the type alone, never on a value.
pub open spec fn fits_inline<T>() -> bool {
    size_of::<T>() <= size_of::<usize>() && align_of::<T>() <= align_of::<usize>()
}

/// Decides whether values of type `T` are stored in place.
pub fn can_inline<T>() -> (b: bool)
    ensures
        b == fits_inline::<T>(),
{
    core::mem::size_of::<T>() <= core::mem::size_of::<usize>() && core::mem::align_of::<T>()
        <= core::mem::align_of::<usize>()
}

} // verus!
