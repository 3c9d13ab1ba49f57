//! A box for one value that keeps small payloads in place and moves large
//! ones to the heap.
//!
//! `layout` holds the predicate that decides between the two; `container`
//! holds the box itself.

pub mod container;
pub mod layout;

pub use crate::container::InlinableBox;
pub use crate::container::_size_test;
pub use crate::layout::can_inline;
