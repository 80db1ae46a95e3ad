//! `AtomicPtrArray`: an array reference whose pointer is one word held in
//! an atomically swapped cell.
//!
//! Beyond the usual array operations it offers swap and compare-and-swap
//! replacement of the block pointer, mirroring single-word atomic pointer
//! semantics.  A successful compare-and-swap transfers ownership of the old
//! address to the caller, who becomes responsible for its eventual
//! destruction; a failed one changes nothing and returns the unconsumed
//! candidate together with the actual current address, so the caller can
//! retry without re-allocating.  The operations do not touch reference
//! counts: layering counting on top is the caller's business, and no
//! hazard protection is offered against a reader holding an address that is
//! concurrently swapped out — that is the documented naive hazard.

use crate::base::{alloc_block, block_valid_at, can_alloc_block, dealloc_block};
use crate::mem_block::{AllocInfo, Heap, NULL, spec_block_max_len, spec_block_size};
use crate::ptr_utils::{AtomicPtrCell, BaseArrayPtr, MemOrder};
use core::marker::PhantomData;
use vstd::prelude::*;

verus! {

/// Heap-allocated array whose one-word pointer is read and replaced
/// atomically.
pub struct AtomicPtrArray<E, L> {
    data: AtomicPtrCell,
    _marker: PhantomData<(E, L)>,
}

impl<E, L> AtomicPtrArray<E, L> {
    /// The address the cell currently holds.
    pub closed spec fn spec_addr(&self) -> usize {
        self.data.spec_addr()
    }

    /// The number of elements in the block the cell points at.
    pub open spec fn spec_len(&self, heap: Heap<E, L>) -> int {
        heap.elems_at(self.spec_addr()).len() as int
    }

    /// The cell points at a live block in `heap`, recorded with the layout
    /// a block of its length needs.
    pub open spec fn wf(self, heap: Heap<E, L>) -> bool {
        block_valid_at::<E, L>(heap, self.spec_addr(), self.spec_len(heap))
    }

    /// Create a new array, with the label initialized to a provided value
    /// and element `i` initialized to `func(i)`.
    pub fn with_label<F: Fn(usize) -> E>(
        heap: &mut Heap<E, L>,
        label: L,
        len: usize,
        func: F,
    ) -> (r: Self)
        requires
            old(heap).wf(),
            len <= spec_block_max_len::<E, L>(),
            can_alloc_block::<E, L>(*old(heap), len as int),
            forall|i: usize| i < len ==> call_requires(func, (i,)),
        ensures
            final(heap).wf(),
            r.wf(*final(heap)),
            r.spec_len(*final(heap)) == len,
            r.spec_addr() == old(heap).addr_limit(),
            !old(heap).is_live(r.spec_addr()),
            Heap::agrees_except(*final(heap), *old(heap), r.spec_addr()),
            final(heap).addr_limit() == old(heap).addr_limit() + 1,
            final(heap).label_at(r.spec_addr()) == label,
            forall|i: int|
                0 <= i < len ==> call_ensures(
                    func,
                    ((i as usize),),
                    #[trigger] final(heap).elems_at(r.spec_addr())[i],
                ),
            AllocInfo::alloc_effect(
                old(heap).spec_info(),
                final(heap).spec_info(),
                spec_block_size::<E, L>(len as int),
            ),
    {
        let addr = alloc_block(heap, label, len, func);
        AtomicPtrArray { data: AtomicPtrCell::from_ptr(addr), _marker: PhantomData }
    }

    /// Wrap an address handed back by a swap or compare-and-swap, making
    /// its holder responsible for the block's destruction.
    pub fn from_raw(addr: usize) -> (r: Self)
        ensures
            r.spec_addr() == addr,
    {
        AtomicPtrArray { data: AtomicPtrCell::from_ptr(addr), _marker: PhantomData }
    }

    /// Returns a null reference.  It points at nothing: every operation
    /// that reads through the pointer demands a live block, which a null
    /// reference can never present.
    pub fn null_ref() -> (r: Self)
        ensures
            r.spec_addr() == NULL,
    {
        AtomicPtrArray { data: AtomicPtrCell::from_ptr(NULL), _marker: PhantomData }
    }

    /// Returns true if the internal pointer in this struct is null.
    pub fn is_null(&self) -> (r: bool)
        ensures
            r == (self.spec_addr() == NULL),
    {
        self.data.is_null()
    }

    /// The raw address the cell currently holds.
    pub fn as_raw(&self) -> (r: usize)
        ensures
            r == self.spec_addr(),
    {
        self.data.as_ptr()
    }

    /// The number of elements in the pointed-at block.
    pub fn len(&self, heap: &Heap<E, L>) -> (r: usize)
        requires
            self.wf(*heap),
        ensures
            r == self.spec_len(*heap),
    {
        heap.block_len(self.data.as_ptr())
    }

    /// A reference into this array.  Returns `None` if and only if the
    /// index is out of bounds.
    pub fn get<'a>(&self, heap: &'a Heap<E, L>, key: usize) -> (r: Option<&'a E>)
        requires
            self.wf(*heap),
        ensures
            match r {
                Some(e) => key < self.spec_len(*heap) && *e == heap.elems_at(self.spec_addr())[
                    key as int],
                None => key >= self.spec_len(*heap),
            },
    {
        if key >= self.len(heap) {
            None
        } else {
            Some(heap.block(self.data.as_ptr()).get(key))
        }
    }

    /// A mutable reference into this array.  Returns `None` if and only if
    /// the index is out of bounds; writes through the reference land in the
    /// element at `key` and touch nothing else.
    pub fn get_mut<'a>(&self, heap: &'a mut Heap<E, L>, key: usize) -> (r: Option<&'a mut E>)
        requires
            old(heap).wf(),
            self.wf(*old(heap)),
        ensures
            final(heap).wf(),
            self.wf(*final(heap)),
            match r {
                Some(e) => {
                    &&& key < self.spec_len(*old(heap))
                    &&& *e == old(heap).elems_at(self.spec_addr())[key as int]
                    &&& final(heap).elems_at(self.spec_addr()) == old(heap).elems_at(
                        self.spec_addr(),
                    ).update(key as int, *final(e))
                    &&& final(heap).label_at(self.spec_addr()) == old(heap).label_at(
                        self.spec_addr(),
                    )
                    &&& Heap::agrees_except(*final(heap), *old(heap), self.spec_addr())
                    &&& final(heap).spec_info() == old(heap).spec_info()
                },
                None => key >= self.spec_len(*old(heap)) && *final(heap) == *old(heap),
            },
    {
        if key >= self.len(heap) {
            None
        } else {
            Some(heap.block_mut(self.data.as_ptr()).get_mut(key))
        }
    }

    /// Insert an element into this array, returning the previous element.
    /// Returns `None`, and drops `value`, if and only if the index is out
    /// of bounds.
    pub fn insert(&self, heap: &mut Heap<E, L>, key: usize, value: E) -> (r: Option<E>)
        requires
            old(heap).wf(),
            self.wf(*old(heap)),
        ensures
            final(heap).wf(),
            self.wf(*final(heap)),
            match r {
                Some(prev) => {
                    &&& key < self.spec_len(*old(heap))
                    &&& prev == old(heap).elems_at(self.spec_addr())[key as int]
                    &&& final(heap).elems_at(self.spec_addr()) == old(heap).elems_at(
                        self.spec_addr(),
                    ).update(key as int, value)
                    &&& final(heap).label_at(self.spec_addr()) == old(heap).label_at(
                        self.spec_addr(),
                    )
                    &&& Heap::agrees_except(*final(heap), *old(heap), self.spec_addr())
                    &&& final(heap).spec_info() == old(heap).spec_info()
                },
                None => key >= self.spec_len(*old(heap)) && *final(heap) == *old(heap),
            },
    {
        if key >= self.len(heap) {
            None
        } else {
            let slot = heap.block_mut(self.data.as_ptr()).get_mut(key);
            let mut taken = value;
            core::mem::swap(slot, &mut taken);
            Some(taken)
        }
    }

    /// Get a reference to the label.
    pub fn get_label<'a>(&self, heap: &'a Heap<E, L>) -> (r: &'a L)
        requires
            self.wf(*heap),
        ensures
            *r == heap.label_at(self.spec_addr()),
    {
        heap.block(self.data.as_ptr()).get_label()
    }

    /// Get a mutable reference to the label.  Writes through it touch
    /// nothing but the label.
    pub fn get_label_mut<'a>(&self, heap: &'a mut Heap<E, L>) -> (r: &'a mut L)
        requires
            old(heap).wf(),
            self.wf(*old(heap)),
        ensures
            *r == old(heap).label_at(self.spec_addr()),
            final(heap).wf(),
            self.wf(*final(heap)),
            final(heap).label_at(self.spec_addr()) == *final(r),
            final(heap).elems_at(self.spec_addr()) == old(heap).elems_at(self.spec_addr()),
            Heap::agrees_except(*final(heap), *old(heap), self.spec_addr()),
            final(heap).spec_info() == old(heap).spec_info(),
    {
        heap.block_mut(self.data.as_ptr()).get_label_mut()
    }

    /// Destroy the pointed-at block and release its storage.
    pub fn drop(self, heap: &mut Heap<E, L>)
        requires
            old(heap).wf(),
            self.wf(*old(heap)),
        ensures
            final(heap).wf(),
            !final(heap).is_live(self.spec_addr()),
            Heap::agrees_except(*final(heap), *old(heap), self.spec_addr()),
            final(heap).addr_limit() == old(heap).addr_limit(),
            AllocInfo::dealloc_effect(
                old(heap).spec_info(),
                final(heap).spec_info(),
                spec_block_size::<E, L>(self.spec_len(*old(heap))),
            ),
    {
        let len = heap.block_len(self.data.as_ptr());
        let _ = dealloc_block(heap, self.data.as_ptr(), len);
    }

    /// Replace the held pointer with the candidate's, returning a
    /// reference that owns the block pointed at before.
    pub fn swap(&mut self, ptr: Self, order: MemOrder) -> (r: Self)
        ensures
            r.spec_addr() == old(self).spec_addr(),
            final(self).spec_addr() == ptr.spec_addr(),
    {
        let prev = self.data.swap(ptr.as_raw(), order);
        let AtomicPtrArray { data: _, _marker } = ptr;
        AtomicPtrArray { data: AtomicPtrCell::from_ptr(prev), _marker: PhantomData }
    }

    /// Store the candidate's pointer if the cell still holds `current`.
    /// On success the previous address comes back in `Ok`, and its block is
    /// now the caller's to destroy; on failure the cell is untouched, and
    /// the caller gets the unconsumed candidate back together with the
    /// actual current address.
    pub fn compare_and_swap(&mut self, current: usize, new_arr: Self, order: MemOrder) -> (r:
        Result<usize, (Self, usize)>)
        ensures
            match r {
                Ok(prev) => {
                    &&& old(self).spec_addr() == current
                    &&& prev == current
                    &&& final(self).spec_addr() == new_arr.spec_addr()
                },
                Err((ret, actual)) => {
                    &&& old(self).spec_addr() != current
                    &&& ret == new_arr
                    &&& actual == old(self).spec_addr()
                    &&& final(self).spec_addr() == old(self).spec_addr()
                },
            },
    {
        let prev = self.data.compare_and_swap(current, new_arr.as_raw(), order);
        if prev == current {
            let AtomicPtrArray { data: _, _marker } = new_arr;
            Ok(prev)
        } else {
            Err((new_arr, prev))
        }
    }

    /// As `compare_and_swap`, with distinct orderings for the success and
    /// failure paths.
    pub fn compare_exchange(
        &mut self,
        current: usize,
        new_arr: Self,
        success: MemOrder,
        failure: MemOrder,
    ) -> (r: Result<usize, (Self, usize)>)
        ensures
            match r {
                Ok(prev) => {
                    &&& old(self).spec_addr() == current
                    &&& prev == current
                    &&& final(self).spec_addr() == new_arr.spec_addr()
                },
                Err((ret, actual)) => {
                    &&& old(self).spec_addr() != current
                    &&& ret == new_arr
                    &&& actual == old(self).spec_addr()
                    &&& final(self).spec_addr() == old(self).spec_addr()
                },
            },
    {
        let _ = failure;
        self.compare_and_swap(current, new_arr, success)
    }

    /// As `compare_exchange`, but allowed to fail spuriously: a failure
    /// only promises the cell unchanged, the candidate returned, and the
    /// actual address reported.
    pub fn compare_exchange_weak(
        &mut self,
        current: usize,
        new_arr: Self,
        success: MemOrder,
        failure: MemOrder,
    ) -> (r: Result<usize, (Self, usize)>)
        ensures
            match r {
                Ok(prev) => {
                    &&& old(self).spec_addr() == current
                    &&& prev == current
                    &&& final(self).spec_addr() == new_arr.spec_addr()
                },
                Err((ret, actual)) => {
                    &&& ret == new_arr
                    &&& actual == old(self).spec_addr()
                    &&& final(self).spec_addr() == old(self).spec_addr()
                },
            },
    {
        self.compare_exchange(current, new_arr, success, failure)
    }
}

impl<E> AtomicPtrArray<E, ()> {
    /// Create a new array with no label, with element `i` initialized to
    /// `func(i)`.
    pub fn new<F: Fn(usize) -> E>(heap: &mut Heap<E, ()>, len: usize, func: F) -> (r:
        AtomicPtrArray<E, ()>)
        requires
            old(heap).wf(),
            len <= spec_block_max_len::<E, ()>(),
            can_alloc_block::<E, ()>(*old(heap), len as int),
            forall|i: usize| i < len ==> call_requires(func, (i,)),
        ensures
            final(heap).wf(),
            r.wf(*final(heap)),
            r.spec_len(*final(heap)) == len,
            r.spec_addr() == old(heap).addr_limit(),
            !old(heap).is_live(r.spec_addr()),
            Heap::agrees_except(*final(heap), *old(heap), r.spec_addr()),
            forall|i: int|
                0 <= i < len ==> call_ensures(
                    func,
                    ((i as usize),),
                    #[trigger] final(heap).elems_at(r.spec_addr())[i],
                ),
            AllocInfo::alloc_effect(
                old(heap).spec_info(),
                final(heap).spec_info(),
                spec_block_size::<E, ()>(len as int),
            ),
    {
        AtomicPtrArray::with_label(heap, (), len, func)
    }
}


impl<E, L> crate::traits::BaseArrayRef for AtomicPtrArray<E, L> {
    open spec fn ref_addr(&self) -> usize {
        self.spec_addr()
    }

    fn is_null(&self) -> (r: bool) {
        AtomicPtrArray::is_null(self)
    }
}

} // verus!
