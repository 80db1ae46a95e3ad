//! `SafeArray`: the safe, generic interface to [`BaseArray`].
//!
//! A `SafeArray` pairs a base array with a pointer representation that also
//! knows the array's length, and uses that length to check every access at
//! runtime.  Out-of-bounds lookups return `None` instead of demanding a
//! proof from the caller.  The two length-storage strategies — length in
//! the block (one-word reference) and length beside the pointer (two-word
//! reference) — are the implementations of [`SafeArrayPtr`].

use crate::base::{BaseArray, alloc_block, block_valid_at, can_alloc_block, clone_block_at};
use crate::mem_block::{AllocInfo, Heap, NULL, spec_block_max_len, spec_block_size,
    spec_label_pad};
use crate::ptr_utils::BaseArrayPtr;
use vstd::prelude::*;

verus! {

/// Array pointer that also knows what its length is.
///
/// Implementations must agree with the heap: `get_len` reads back exactly
/// the length the pointer was made with, whether it stores that length in
/// its own words or in the block it points at.
pub trait SafeArrayPtr<E, L>: BaseArrayPtr {
    /// The length this pointer was made for.
    spec fn spec_len(&self) -> usize;

    /// Make a pointer to the block at `addr` holding `len` elements.
    fn make(addr: usize, len: usize) -> (r: Self)
        requires
            addr != NULL,
        ensures
            r.spec_addr() == addr,
            r.spec_len() == len,
    ;

    /// Get the length of this array.
    fn get_len(&self, heap: &Heap<E, L>) -> (r: usize)
        requires
            heap.is_live(self.spec_addr()),
            heap.elems_at(self.spec_addr()).len() == self.spec_len(),
        ensures
            r == self.spec_len(),
    ;
}

/// Safe, generic interface to [`BaseArray`].
///
/// Uses length information to check every access, and excludes operations
/// that cannot be performed safely from its API.
pub struct SafeArray<E, L, P: SafeArrayPtr<E, L>> {
    data: BaseArray<E, L, P>,
}

impl<E, L, P: SafeArrayPtr<E, L>> SafeArray<E, L, P> {
    /// The address of the block this array owns.
    pub closed spec fn spec_addr(&self) -> usize {
        self.data.spec_addr()
    }

    /// The number of elements in this array.
    pub closed spec fn spec_len(&self) -> usize {
        self.data.spec_ptr().spec_len()
    }

    /// The array owns a live block of exactly its length in `heap`.
    pub open spec fn wf(self, heap: Heap<E, L>) -> bool {
        block_valid_at::<E, L>(heap, self.spec_addr(), self.spec_len() as int)
    }

    /// Create a new array, with the label initialized to a provided value
    /// and element `i` initialized to `func(i)`.
    pub fn with_label<F: Fn(usize) -> E>(
        heap: &mut Heap<E, L>,
        label: L,
        len: usize,
        func: F,
    ) -> (r: Self)
        requires
            old(heap).wf(),
            len <= spec_block_max_len::<E, L>(),
            can_alloc_block::<E, L>(*old(heap), len as int),
            forall|i: usize| i < len ==> call_requires(func, (i,)),
        ensures
            final(heap).wf(),
            r.wf(*final(heap)),
            r.spec_len() == len,
            r.spec_addr() == old(heap).addr_limit(),
            !old(heap).is_live(r.spec_addr()),
            Heap::agrees_except(*final(heap), *old(heap), r.spec_addr()),
            final(heap).addr_limit() == old(heap).addr_limit() + 1,
            final(heap).label_at(r.spec_addr()) == label,
            final(heap).elems_at(r.spec_addr()).len() == len,
            forall|i: int|
                0 <= i < len ==> call_ensures(
                    func,
                    ((i as usize),),
                    #[trigger] final(heap).elems_at(r.spec_addr())[i],
                ),
            AllocInfo::alloc_effect(
                old(heap).spec_info(),
                final(heap).spec_info(),
                spec_block_size::<E, L>(len as int),
            ),
    {
        let addr = alloc_block(heap, label, len, func);
        SafeArray { data: BaseArray::from_ptr(P::make(addr, len)) }
    }

    /// Creates an array from a block address and its length, without
    /// allocating.  The caller vouches, through the well-formedness demands
    /// of later operations, that a block of that length lives there.
    pub fn from_raw_parts(addr: usize, len: usize) -> (r: Self)
        requires
            addr != NULL,
        ensures
            r.spec_addr() == addr,
            r.spec_len() == len,
    {
        SafeArray { data: BaseArray::from_ptr(P::make(addr, len)) }
    }

    /// The raw address of the block this array owns.
    pub fn as_raw(&self) -> (r: usize)
        ensures
            r == self.spec_addr(),
    {
        self.data.as_ptr().as_ptr()
    }

    /// The number of elements in this array.
    pub fn len(&self, heap: &Heap<E, L>) -> (r: usize)
        requires
            self.wf(*heap),
        ensures
            r == self.spec_len(),
    {
        self.data.as_ptr().get_len(heap)
    }

    /// Returns whether the array's pointer is null; a well-formed array's
    /// pointer never is.
    pub fn is_null(&self) -> (r: bool)
        ensures
            r == (self.spec_addr() == NULL),
    {
        self.data.is_null()
    }

    /// A reference into this array.  Returns `None` if and only if the
    /// index is out of bounds; otherwise the element last written at `key`.
    pub fn get<'a>(&self, heap: &'a Heap<E, L>, key: usize) -> (r: Option<&'a E>)
        requires
            self.wf(*heap),
        ensures
            match r {
                Some(e) => key < self.spec_len() && *e == heap.elems_at(self.spec_addr())[
                    key as int],
                None => key >= self.spec_len(),
            },
    {
        if key >= self.len(heap) {
            None
        } else {
            Some(self.data.get(heap, key))
        }
    }

    /// A mutable reference into this array.  Returns `None` if and only if
    /// the index is out of bounds; writes through the reference land in the
    /// element at `key` and touch nothing else.
    pub fn get_mut<'a>(&self, heap: &'a mut Heap<E, L>, key: usize) -> (r: Option<&'a mut E>)
        requires
            old(heap).wf(),
            self.wf(*old(heap)),
        ensures
            final(heap).wf(),
            self.wf(*final(heap)),
            match r {
                Some(e) => {
                    &&& key < self.spec_len()
                    &&& *e == old(heap).elems_at(self.spec_addr())[key as int]
                    &&& final(heap).elems_at(self.spec_addr()) == old(heap).elems_at(
                        self.spec_addr(),
                    ).update(key as int, *final(e))
                    &&& final(heap).label_at(self.spec_addr()) == old(heap).label_at(
                        self.spec_addr(),
                    )
                    &&& Heap::agrees_except(*final(heap), *old(heap), self.spec_addr())
                    &&& final(heap).addr_limit() == old(heap).addr_limit()
                    &&& final(heap).spec_info() == old(heap).spec_info()
                },
                None => key >= self.spec_len() && *final(heap) == *old(heap),
            },
    {
        if key >= self.len(heap) {
            None
        } else {
            Some(self.data.get_mut(heap, key))
        }
    }

    /// Insert an element into this array, returning the previous element.
    /// Returns `None`, and drops `value`, if and only if the index is out
    /// of bounds.
    pub fn insert(&self, heap: &mut Heap<E, L>, key: usize, value: E) -> (r: Option<E>)
        requires
            old(heap).wf(),
            self.wf(*old(heap)),
        ensures
            final(heap).wf(),
            self.wf(*final(heap)),
            match r {
                Some(prev) => {
                    &&& key < self.spec_len()
                    &&& prev == old(heap).elems_at(self.spec_addr())[key as int]
                    &&& final(heap).elems_at(self.spec_addr()) == old(heap).elems_at(
                        self.spec_addr(),
                    ).update(key as int, value)
                    &&& final(heap).label_at(self.spec_addr()) == old(heap).label_at(
                        self.spec_addr(),
                    )
                    &&& Heap::agrees_except(*final(heap), *old(heap), self.spec_addr())
                    &&& final(heap).addr_limit() == old(heap).addr_limit()
                    &&& final(heap).spec_info() == old(heap).spec_info()
                },
                None => key >= self.spec_len() && *final(heap) == *old(heap),
            },
    {
        if key >= self.len(heap) {
            None
        } else {
            let slot = self.data.get_mut(heap, key);
            let mut taken = value;
            core::mem::swap(slot, &mut taken);
            Some(taken)
        }
    }

    /// Get a reference to the label.
    pub fn get_label<'a>(&self, heap: &'a Heap<E, L>) -> (r: &'a L)
        requires
            self.wf(*heap),
        ensures
            *r == heap.label_at(self.spec_addr()),
    {
        self.data.get_label(heap)
    }

    /// Get a mutable reference to the label.  Writes through it touch
    /// nothing but the label.
    pub fn get_label_mut<'a>(&self, heap: &'a mut Heap<E, L>) -> (r: &'a mut L)
        requires
            old(heap).wf(),
            self.wf(*old(heap)),
        ensures
            *r == old(heap).label_at(self.spec_addr()),
            final(heap).wf(),
            self.wf(*final(heap)),
            final(heap).label_at(self.spec_addr()) == *final(r),
            final(heap).elems_at(self.spec_addr()) == old(heap).elems_at(self.spec_addr()),
            Heap::agrees_except(*final(heap), *old(heap), self.spec_addr()),
            final(heap).addr_limit() == old(heap).addr_limit(),
            final(heap).spec_info() == old(heap).spec_info(),
    {
        self.data.get_label_mut(heap)
    }

    /// A reference to the element at `idx`, which the caller must prove in
    /// bounds: no runtime check is made.
    pub fn get_unchecked<'a>(&self, heap: &'a Heap<E, L>, idx: usize) -> (r: &'a E)
        requires
            self.wf(*heap),
            idx < self.spec_len(),
        ensures
            *r == heap.elems_at(self.spec_addr())[idx as int],
    {
        self.data.get(heap, idx)
    }

    /// A mutable reference to the element at `idx`, which the caller must
    /// prove in bounds: no runtime check is made.
    pub fn get_mut_unchecked<'a>(&self, heap: &'a mut Heap<E, L>, idx: usize) -> (r: &'a mut E)
        requires
            old(heap).wf(),
            self.wf(*old(heap)),
            idx < self.spec_len(),
        ensures
            *r == old(heap).elems_at(self.spec_addr())[idx as int],
            final(heap).wf(),
            self.wf(*final(heap)),
            final(heap).elems_at(self.spec_addr()) == old(heap).elems_at(
                self.spec_addr(),
            ).update(idx as int, *final(r)),
            final(heap).label_at(self.spec_addr()) == old(heap).label_at(self.spec_addr()),
            Heap::agrees_except(*final(heap), *old(heap), self.spec_addr()),
            final(heap).addr_limit() == old(heap).addr_limit(),
            final(heap).spec_info() == old(heap).spec_info(),
    {
        self.data.get_mut(heap, idx)
    }

    /// Returns a reference to a slice over all this array's elements.
    pub fn as_slice<'a>(&self, heap: &'a Heap<E, L>) -> (r: &'a [E])
        requires
            self.wf(*heap),
        ensures
            r@ == heap.elems_at(self.spec_addr()),
            r@.len() == self.spec_len(),
    {
        self.data.as_slice(heap)
    }

    /// Returns a mutable slice over all this array's elements.  Writes
    /// through it land in this array's elements and touch nothing else.
    /// A slice cannot grow or shrink, so the array stays well-formed.
    pub fn as_slice_mut<'a>(&self, heap: &'a mut Heap<E, L>) -> (r: &'a mut [E])
        requires
            old(heap).wf(),
            self.wf(*old(heap)),
        ensures
            r@ == old(heap).elems_at(self.spec_addr()),
            r@.len() == self.spec_len(),
            final(heap).wf(),
            final(heap).elems_at(self.spec_addr()) == final(r)@,
            final(r)@.len() == self.spec_len() ==> self.wf(*final(heap)),
            final(heap).label_at(self.spec_addr()) == old(heap).label_at(self.spec_addr()),
            Heap::agrees_except(*final(heap), *old(heap), self.spec_addr()),
            final(heap).addr_limit() == old(heap).addr_limit(),
            final(heap).spec_info() == old(heap).spec_info(),
    {
        self.data.as_slice_mut(heap)
    }

    /// The location of element `idx` as the block's address paired with
    /// the element's byte offset inside the block.  Two references alias
    /// exactly when these locations are equal.
    pub fn get_ptr(&self, heap: &Heap<E, L>, idx: usize) -> (r: (usize, usize))
        requires
            self.wf(*heap),
            idx < self.spec_len(),
        ensures
            r.0 == self.spec_addr(),
            r.1 == spec_label_pad::<E, L>() + vstd::layout::size_of::<E>() * idx,
    {
        self.data.get_ptr(idx)
    }

    /// Destroy this array: run the label's and every element's destructor
    /// by returning the block whole, and release its storage.
    pub fn drop(self, heap: &mut Heap<E, L>)
        requires
            old(heap).wf(),
            self.wf(*old(heap)),
        ensures
            final(heap).wf(),
            !final(heap).is_live(self.spec_addr()),
            Heap::agrees_except(*final(heap), *old(heap), self.spec_addr()),
            final(heap).addr_limit() == old(heap).addr_limit(),
            AllocInfo::dealloc_effect(
                old(heap).spec_info(),
                final(heap).spec_info(),
                spec_block_size::<E, L>(self.spec_len() as int),
            ),
    {
        let len = self.data.as_ptr().get_len(heap);
        self.data.drop(heap, len);
    }
}

impl<E, P: SafeArrayPtr<E, ()>> SafeArray<E, (), P> {
    /// Create a new array with no label, with element `i` initialized to
    /// `func(i)`.
    pub fn new<F: Fn(usize) -> E>(heap: &mut Heap<E, ()>, len: usize, func: F) -> (r: Self)
        requires
            old(heap).wf(),
            len <= spec_block_max_len::<E, ()>(),
            can_alloc_block::<E, ()>(*old(heap), len as int),
            forall|i: usize| i < len ==> call_requires(func, (i,)),
        ensures
            final(heap).wf(),
            r.wf(*final(heap)),
            r.spec_len() == len,
            r.spec_addr() == old(heap).addr_limit(),
            !old(heap).is_live(r.spec_addr()),
            Heap::agrees_except(*final(heap), *old(heap), r.spec_addr()),
            final(heap).addr_limit() == old(heap).addr_limit() + 1,
            final(heap).elems_at(r.spec_addr()).len() == len,
            forall|i: int|
                0 <= i < len ==> call_ensures(
                    func,
                    ((i as usize),),
                    #[trigger] final(heap).elems_at(r.spec_addr())[i],
                ),
            AllocInfo::alloc_effect(
                old(heap).spec_info(),
                final(heap).spec_info(),
                spec_block_size::<E, ()>(len as int),
            ),
    {
        Self::with_label(heap, (), len, func)
    }
}

impl<E: Default, L, P: SafeArrayPtr<E, L>> SafeArray<E, L, P> {
    /// Create a new array with every element initialized to the element
    /// type's default value.
    pub fn with_len(heap: &mut Heap<E, L>, label: L, len: usize) -> (r: Self)
        requires
            old(heap).wf(),
            len <= spec_block_max_len::<E, L>(),
            can_alloc_block::<E, L>(*old(heap), len as int),
        ensures
            final(heap).wf(),
            r.wf(*final(heap)),
            r.spec_len() == len,
            r.spec_addr() == old(heap).addr_limit(),
            !old(heap).is_live(r.spec_addr()),
            Heap::agrees_except(*final(heap), *old(heap), r.spec_addr()),
            final(heap).addr_limit() == old(heap).addr_limit() + 1,
            final(heap).label_at(r.spec_addr()) == label,
            final(heap).elems_at(r.spec_addr()).len() == len,
            AllocInfo::alloc_effect(
                old(heap).spec_info(),
                final(heap).spec_info(),
                spec_block_size::<E, L>(len as int),
            ),
    {
        Self::with_label(heap, label, len, |_i: usize| E::default())
    }
}

impl<E: Clone, L: Clone, P: SafeArrayPtr<E, L>> SafeArray<E, L, P> {
    /// Deep copy: clone the label and every element into a freshly
    /// allocated block of the same length.
    pub fn clone(&self, heap: &mut Heap<E, L>) -> (r: Self)
        requires
            old(heap).wf(),
            self.wf(*old(heap)),
            can_alloc_block::<E, L>(*old(heap), self.spec_len() as int),
        ensures
            final(heap).wf(),
            r.wf(*final(heap)),
            r.spec_len() == self.spec_len(),
            r.spec_addr() == old(heap).addr_limit(),
            !old(heap).is_live(r.spec_addr()),
            r.spec_addr() != self.spec_addr(),
            Heap::agrees_except(*final(heap), *old(heap), r.spec_addr()),
            final(heap).addr_limit() == old(heap).addr_limit() + 1,
            cloned(old(heap).label_at(self.spec_addr()), final(heap).label_at(r.spec_addr())),
            final(heap).elems_at(r.spec_addr()).len() == self.spec_len(),
            forall|i: int|
                0 <= i < self.spec_len() ==> cloned(
                    old(heap).elems_at(self.spec_addr())[i],
                    #[trigger] final(heap).elems_at(r.spec_addr())[i],
                ),
            AllocInfo::alloc_effect(
                old(heap).spec_info(),
                final(heap).spec_info(),
                spec_block_size::<E, L>(self.spec_len() as int),
            ),
    {
        let len = self.data.as_ptr().get_len(heap);
        let addr = clone_block_at(heap, self.data.as_ptr().as_ptr(), len);
        SafeArray { data: BaseArray::from_ptr(P::make(addr, len)) }
    }
}

/// Insert returns the previous occupant, and a following lookup at the
/// same index yields exactly the inserted value: after an insert of
/// `value` at `key`, the element a `get` reads back at `key` is `value`,
/// and every other element is what it was before.
pub proof fn lemma_insert_then_get<E, L>(
    h0: Heap<E, L>,
    h1: Heap<E, L>,
    addr: usize,
    key: int,
    value: E,
    prev: E,
)
    requires
        0 <= key < h0.elems_at(addr).len(),
        h1.elems_at(addr) == h0.elems_at(addr).update(key, value),
        prev == h0.elems_at(addr)[key],
    ensures
        h1.elems_at(addr)[key] == value,
        h1.elems_at(addr).len() == h0.elems_at(addr).len(),
        forall|j: int|
            0 <= j < h0.elems_at(addr).len() && j != key ==> h1.elems_at(addr)[j] == h0.elems_at(
                addr,
            )[j],
{
}


impl<E, L, P: SafeArrayPtr<E, L>> crate::traits::BaseArrayRef for SafeArray<E, L, P> {
    open spec fn ref_addr(&self) -> usize {
        self.spec_addr()
    }

    fn is_null(&self) -> (r: bool) {
        SafeArray::is_null(self)
    }
}

impl<E, L, P: SafeArrayPtr<E, L>> crate::traits::LabelledArray<E, L, L> for SafeArray<E, L, P> {
    open spec fn wf_in(&self, heap: Heap<E, L>) -> bool {
        self.wf(heap)
    }

    open spec fn len_of(&self) -> usize {
        self.spec_len()
    }

    /// An owned array may always be written through.
    open spec fn may_write(&self, heap: Heap<E, L>) -> bool {
        true
    }

    open spec fn label_of(&self, heap: Heap<E, L>) -> L {
        heap.label_at(self.spec_addr())
    }

    fn with_label<F: Fn(usize) -> E>(
        heap: &mut Heap<E, L>,
        label: L,
        len: usize,
        func: F,
    ) -> (r: Self) {
        SafeArray::with_label(heap, label, len, func)
    }

    fn len(&self, heap: &Heap<E, L>) -> (r: usize) {
        SafeArray::len(self, heap)
    }

    fn get<'a>(&self, heap: &'a Heap<E, L>, key: usize) -> (r: Option<&'a E>) {
        SafeArray::get(self, heap, key)
    }

    fn get_mut<'a>(&self, heap: &'a mut Heap<E, L>, key: usize) -> (r: Option<&'a mut E>) {
        SafeArray::get_mut(self, heap, key)
    }

    fn insert(&self, heap: &mut Heap<E, L>, key: usize, value: E) -> (r: Option<E>) {
        SafeArray::insert(self, heap, key, value)
    }

    fn get_label<'a>(&self, heap: &'a Heap<E, L>) -> (r: &'a L) {
        SafeArray::get_label(self, heap)
    }

    fn get_unchecked<'a>(&self, heap: &'a Heap<E, L>, idx: usize) -> (r: &'a E) {
        SafeArray::get_unchecked(self, heap, idx)
    }
}

impl<E, P: SafeArrayPtr<E, ()>> crate::traits::MakeArray<E, ()> for SafeArray<E, (), P> {
    fn new<F: Fn(usize) -> E>(heap: &mut Heap<E, ()>, len: usize, func: F) -> (r: Self) {
        SafeArray::new(heap, len, func)
    }
}

impl<E: Default, L, P: SafeArrayPtr<E, L>> crate::traits::DefaultLabelledArray<E, L, L> for SafeArray<
    E,
    L,
    P,
> {
    fn with_len(heap: &mut Heap<E, L>, label: L, len: usize) -> (r: Self) {
        SafeArray::with_len(heap, label, len)
    }
}

impl<E, L, P: SafeArrayPtr<E, L>> crate::traits::SliceArray<E, L, L> for SafeArray<E, L, P> {
    fn as_slice<'a>(&self, heap: &'a Heap<E, L>) -> (r: &'a [E]) {
        SafeArray::as_slice(self, heap)
    }
}

} // verus!
