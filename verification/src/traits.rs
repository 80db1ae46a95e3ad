//! The polymorphic interface to this crate's arrays.
//!
//! The same indexing capability — length, checked lookup, checked mutable
//! lookup, insertion-with-swap — is offered by the owned arrays and by the
//! reference-counted ones, so code can be written against these traits and
//! used with either.  A type parameter `B` names the label type as stored
//! in the block (for a reference-counted array, the counter around the
//! user's label), while `L` names the label the array exposes.
//!
//! Mutation through the interface is gated by `may_write`: always permitted
//! for an array with one owner, permitted only while the reference count
//! reads one for a shared array.  A lookup that cannot be served returns
//! `None` and leaves the heap untouched.

use crate::base::can_alloc_block;
use crate::mem_block::{AllocInfo, Heap, NULL, spec_block_max_len, spec_block_size};
use vstd::prelude::*;

verus! {

/// A basic reference to a heap-allocated array.
pub trait BaseArrayRef {
    /// The address of the block this reference holds.
    spec fn ref_addr(&self) -> usize;

    /// Returns whether the array pointer that this contains is null.
    fn is_null(&self) -> (r: bool)
        ensures
            r == (self.ref_addr() == NULL),
    ;
}

/// Array with an optional label stored next to the data.
pub trait LabelledArray<E, B, L>: BaseArrayRef + Sized {
    /// The reference names a live block of its length in `heap`.
    spec fn wf_in(&self, heap: Heap<E, B>) -> bool;

    /// The number of elements in the array.
    spec fn len_of(&self) -> usize;

    /// Whether mutation through this reference is permitted right now.
    spec fn may_write(&self, heap: Heap<E, B>) -> bool;

    /// The label value this array exposes.
    spec fn label_of(&self, heap: Heap<E, B>) -> L;

    /// Create a new array, with values initialized using a provided
    /// function, and label initialized to a provided value.
    fn with_label<F: Fn(usize) -> E>(
        heap: &mut Heap<E, B>,
        label: L,
        len: usize,
        func: F,
    ) -> (r: Self)
        requires
            old(heap).wf(),
            len <= spec_block_max_len::<E, B>(),
            can_alloc_block::<E, B>(*old(heap), len as int),
            forall|i: usize| i < len ==> call_requires(func, (i,)),
        ensures
            final(heap).wf(),
            r.wf_in(*final(heap)),
            r.len_of() == len,
            r.label_of(*final(heap)) == label,
            forall|i: int|
                0 <= i < len ==> call_ensures(
                    func,
                    ((i as usize),),
                    #[trigger] final(heap).elems_at(r.ref_addr())[i],
                ),
            AllocInfo::alloc_effect(
                old(heap).spec_info(),
                final(heap).spec_info(),
                spec_block_size::<E, B>(len as int),
            ),
    ;

    /// The number of elements in this array.
    fn len(&self, heap: &Heap<E, B>) -> (r: usize)
        requires
            self.wf_in(*heap),
        ensures
            r == self.len_of(),
    ;

    /// Get a reference into this array.  Returns `None` if and only if the
    /// index given is out of bounds.
    fn get<'a>(&self, heap: &'a Heap<E, B>, key: usize) -> (r: Option<&'a E>)
        requires
            self.wf_in(*heap),
        ensures
            match r {
                Some(e) => key < self.len_of() && *e == heap.elems_at(self.ref_addr())[key as int],
                None => key >= self.len_of(),
            },
    ;

    /// Get a mutable reference into this array.  Returns `None`, and
    /// leaves the heap untouched, if and only if the index is out of
    /// bounds or mutation is not permitted through this reference.
    fn get_mut<'a>(&self, heap: &'a mut Heap<E, B>, key: usize) -> (r: Option<&'a mut E>)
        requires
            old(heap).wf(),
            self.wf_in(*old(heap)),
        ensures
            final(heap).wf(),
            self.wf_in(*final(heap)),
            match r {
                Some(e) => {
                    &&& self.may_write(*old(heap))
                    &&& key < self.len_of()
                    &&& *e == old(heap).elems_at(self.ref_addr())[key as int]
                    &&& final(heap).elems_at(self.ref_addr()) == old(heap).elems_at(
                        self.ref_addr(),
                    ).update(key as int, *final(e))
                    &&& final(heap).label_at(self.ref_addr()) == old(heap).label_at(
                        self.ref_addr(),
                    )
                    &&& Heap::agrees_except(*final(heap), *old(heap), self.ref_addr())
                    &&& final(heap).spec_info() == old(heap).spec_info()
                },
                None => {
                    &&& (!self.may_write(*old(heap)) || key >= self.len_of())
                    &&& *final(heap) == *old(heap)
                },
            },
    ;

    /// Insert an element into this array, returning the previous element.
    /// Returns `None`, and drops `value`, if and only if the index is out
    /// of bounds or mutation is not permitted through this reference.
    fn insert(&self, heap: &mut Heap<E, B>, key: usize, value: E) -> (r: Option<E>)
        requires
            old(heap).wf(),
            self.wf_in(*old(heap)),
        ensures
            final(heap).wf(),
            self.wf_in(*final(heap)),
            match r {
                Some(prev) => {
                    &&& self.may_write(*old(heap))
                    &&& key < self.len_of()
                    &&& prev == old(heap).elems_at(self.ref_addr())[key as int]
                    &&& final(heap).elems_at(self.ref_addr()) == old(heap).elems_at(
                        self.ref_addr(),
                    ).update(key as int, value)
                    &&& final(heap).label_at(self.ref_addr()) == old(heap).label_at(
                        self.ref_addr(),
                    )
                    &&& Heap::agrees_except(*final(heap), *old(heap), self.ref_addr())
                    &&& final(heap).spec_info() == old(heap).spec_info()
                },
                None => {
                    &&& (!self.may_write(*old(heap)) || key >= self.len_of())
                    &&& *final(heap) == *old(heap)
                },
            },
    ;

    /// Get a reference to the label.
    fn get_label<'a>(&self, heap: &'a Heap<E, B>) -> (r: &'a L)
        requires
            self.wf_in(*heap),
        ensures
            *r == self.label_of(*heap),
    ;

    /// Get a reference to the element at a specified index, which the
    /// caller must prove in bounds: no runtime check is made.
    fn get_unchecked<'a>(&self, heap: &'a Heap<E, B>, idx: usize) -> (r: &'a E)
        requires
            self.wf_in(*heap),
            idx < self.len_of(),
        ensures
            *r == heap.elems_at(self.ref_addr())[idx as int],
    ;
}

/// An array of values that needs no label to be made.
pub trait MakeArray<E, B>: LabelledArray<E, B, ()> {
    /// Create a new array, with values initialized using a provided
    /// function.
    fn new<F: Fn(usize) -> E>(heap: &mut Heap<E, B>, len: usize, func: F) -> (r: Self)
        requires
            old(heap).wf(),
            len <= spec_block_max_len::<E, B>(),
            can_alloc_block::<E, B>(*old(heap), len as int),
            forall|i: usize| i < len ==> call_requires(func, (i,)),
        ensures
            final(heap).wf(),
            r.wf_in(*final(heap)),
            r.len_of() == len,
            forall|i: int|
                0 <= i < len ==> call_ensures(
                    func,
                    ((i as usize),),
                    #[trigger] final(heap).elems_at(r.ref_addr())[i],
                ),
            AllocInfo::alloc_effect(
                old(heap).spec_info(),
                final(heap).spec_info(),
                spec_block_size::<E, B>(len as int),
            ),
    ;
}

/// Trait for a labelled array with a default value.
pub trait DefaultLabelledArray<E: Default, B, L>: LabelledArray<E, B, L> {
    /// Create a new array, initialized to default values.
    fn with_len(heap: &mut Heap<E, B>, label: L, len: usize) -> (r: Self)
        requires
            old(heap).wf(),
            len <= spec_block_max_len::<E, B>(),
            can_alloc_block::<E, B>(*old(heap), len as int),
        ensures
            final(heap).wf(),
            r.wf_in(*final(heap)),
            r.len_of() == len,
            r.label_of(*final(heap)) == label,
            AllocInfo::alloc_effect(
                old(heap).spec_info(),
                final(heap).spec_info(),
                spec_block_size::<E, B>(len as int),
            ),
    ;
}

/// Array that returns a slice into its contents.
pub trait SliceArray<E, B, L>: LabelledArray<E, B, L> {
    /// Returns a reference to a slice into the elements of this array.
    fn as_slice<'a>(&self, heap: &'a Heap<E, B>) -> (r: &'a [E])
        requires
            self.wf_in(*heap),
        ensures
            r@ == heap.elems_at(self.ref_addr()),
            r@.len() == self.len_of(),
    ;
}

/// A reference to an array whose clone points to the same data.
pub trait ArrayRef<E, B, L>: LabelledArray<E, B, L> {
    /// How many references share the block.
    spec fn count_of(&self, heap: Heap<E, B>) -> usize;

    /// Clones the array reference: the result aliases the same block, the
    /// shared count rises by one, and nothing is allocated.
    fn clone(ptr: &Self, heap: &mut Heap<E, B>) -> (r: Self)
        requires
            old(heap).wf(),
            ptr.wf_in(*old(heap)),
            ptr.count_of(*old(heap)) < usize::MAX,
        ensures
            final(heap).wf(),
            r.wf_in(*final(heap)),
            ptr.wf_in(*final(heap)),
            r.ref_addr() == ptr.ref_addr(),
            r.len_of() == ptr.len_of(),
            r.count_of(*final(heap)) == ptr.count_of(*old(heap)) + 1,
            final(heap).elems_at(ptr.ref_addr()) == old(heap).elems_at(ptr.ref_addr()),
            Heap::agrees_except(*final(heap), *old(heap), ptr.ref_addr()),
            final(heap).spec_info() == old(heap).spec_info(),
    ;
}

} // verus!
