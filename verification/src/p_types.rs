//! The two length-storage strategies behind [`SafeArray`], and the array
//! types they give rise to.
//!
//! A [`ThinArrayPtr`] is one word at runtime: the length lives with the
//! block, so reading it costs an extra indirection through the heap.  A
//! [`FatArrayPtr`] carries the length beside the pointer: reading it is a
//! field access, at the cost of a second word per reference.

use crate::generic::{SafeArray, SafeArrayPtr};
use crate::mem_block::{Heap, NULL};
use crate::ptr_utils::{BaseArrayPtr, NonNullPtr};
use core::marker::PhantomData;
use vstd::prelude::*;

verus! {

/// 1-word reference to an array on the heap that takes ownership of its
/// contained data.
pub type ThinPtrArray<E, L> = SafeArray<E, L, ThinArrayPtr<E, L>>;

/// 2-word reference to an array on the heap that takes ownership of its
/// contained data.
pub type FatPtrArray<E, L> = SafeArray<E, L, FatArrayPtr<E, L>>;

/// Thin pointer to a memory block: one word at runtime, with the length
/// kept only as a ghost and read back from the block itself.
pub struct ThinArrayPtr<E, L> {
    ptr: NonNullPtr,
    len: Ghost<usize>,
    _marker: PhantomData<(E, L)>,
}

impl<E, L> BaseArrayPtr for ThinArrayPtr<E, L> {
    closed spec fn spec_addr(&self) -> usize {
        self.ptr.spec_addr()
    }

    open spec fn can_hold(addr: usize) -> bool {
        addr != NULL
    }

    fn from_ptr(addr: usize) -> (r: Self) {
        ThinArrayPtr { ptr: NonNullPtr::from_ptr(addr), len: Ghost(0), _marker: PhantomData }
    }

    fn as_ptr(&self) -> (r: usize) {
        self.ptr.as_ptr()
    }

    fn is_null(&self) -> (r: bool) {
        self.ptr.is_null()
    }

    proof fn null_free_can_hold(addr: usize) {
    }
}

impl<E, L> SafeArrayPtr<E, L> for ThinArrayPtr<E, L> {
    closed spec fn spec_len(&self) -> usize {
        self.len@
    }

    fn make(addr: usize, len: usize) -> (r: Self) {
        ThinArrayPtr { ptr: NonNullPtr::from_ptr(addr), len: Ghost(len), _marker: PhantomData }
    }

    fn get_len(&self, heap: &Heap<E, L>) -> (r: usize) {
        heap.block_len(self.ptr.as_ptr())
    }
}

/// Fat pointer to a memory block: the length is stored beside the address,
/// so reading it never touches the heap.
pub struct FatArrayPtr<E, L> {
    ptr: NonNullPtr,
    len: usize,
    _marker: PhantomData<(E, L)>,
}

impl<E, L> BaseArrayPtr for FatArrayPtr<E, L> {
    closed spec fn spec_addr(&self) -> usize {
        self.ptr.spec_addr()
    }

    open spec fn can_hold(addr: usize) -> bool {
        addr != NULL
    }

    fn from_ptr(addr: usize) -> (r: Self) {
        FatArrayPtr { ptr: NonNullPtr::from_ptr(addr), len: 0, _marker: PhantomData }
    }

    fn as_ptr(&self) -> (r: usize) {
        self.ptr.as_ptr()
    }

    fn is_null(&self) -> (r: bool) {
        self.ptr.is_null()
    }

    proof fn null_free_can_hold(addr: usize) {
    }
}

impl<E, L> SafeArrayPtr<E, L> for FatArrayPtr<E, L> {
    closed spec fn spec_len(&self) -> usize {
        self.len
    }

    fn make(addr: usize, len: usize) -> (r: Self) {
        FatArrayPtr { ptr: NonNullPtr::from_ptr(addr), len, _marker: PhantomData }
    }

    fn get_len(&self, heap: &Heap<E, L>) -> (r: usize) {
        let _ = heap;
        self.len
    }
}

} // verus!
