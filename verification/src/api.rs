//! The default choices a casual user starts from: a two-word owned array
//! and its atomically reference-counted counterpart.

use vstd::prelude::*;

verus! {

/// Heap-allocated array with the element count stored beside the pointer.
pub type HeapArray<E, L> = crate::p_types::FatPtrArray<E, L>;

/// Atomically reference counted array, referenced using a fat pointer.
pub type ArcArray<E, L> = crate::naive_rc::FpArcArray<E, L>;

} // verus!
