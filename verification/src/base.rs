//! `BaseArray`: the length-free core that turns a memory block into a
//! constructible object.
//!
//! A `BaseArray` pairs a pointer representation with the element and label
//! types of the block it points at.  It stores no length itself: every
//! operation that needs one takes it from the caller and demands, as a
//! precondition, that the caller got it right.  This is the layer where all
//! bounds obligations live; the safe wrappers discharge them with runtime
//! checks.
//!
//! The module also holds the free functions that allocate and copy whole
//! blocks, shared by every array type in the crate.

use crate::mem_block::{AllocInfo, Heap, MemBlock, NULL, spec_block_align, spec_block_max_len,
    spec_block_size, spec_label_pad};
use crate::ptr_utils::BaseArrayPtr;
use core::marker::PhantomData;
use vstd::prelude::*;

verus! {

/// Whether `heap` has room for one more block of `len` elements.
pub open spec fn can_alloc_block<E, L>(heap: Heap<E, L>, len: int) -> bool {
    &&& heap.addr_limit() < NULL
    &&& heap.spec_info().bytes_alloc + spec_block_size::<E, L>(len) <= usize::MAX
}

/// `addr` names a live block of exactly `len` elements in `heap`, recorded
/// there with the layout such a block needs.
pub open spec fn block_valid_at<E, L>(heap: Heap<E, L>, addr: usize, len: int) -> bool {
    &&& heap.is_live(addr)
    &&& addr != NULL
    &&& heap.elems_at(addr).len() == len
    &&& 0 <= len <= spec_block_max_len::<E, L>()
    &&& heap.size_at(addr) == spec_block_size::<E, L>(len)
    &&& heap.align_at(addr) == spec_block_align::<E, L>(len)
}

/// Allocate one block of `len` elements in `heap`, with the label set to
/// `label` and element `i` set to `func(i)`.  Returns the fresh block's
/// address.
pub fn alloc_block<E, L, F: Fn(usize) -> E>(
    heap: &mut Heap<E, L>,
    label: L,
    len: usize,
    func: F,
) -> (addr: usize)
    requires
        old(heap).wf(),
        len <= spec_block_max_len::<E, L>(),
        can_alloc_block::<E, L>(*old(heap), len as int),
        forall|i: usize| i < len ==> call_requires(func, (i,)),
    ensures
        final(heap).wf(),
        block_valid_at(*final(heap), addr, len as int),
        addr == old(heap).addr_limit(),
        !old(heap).is_live(addr),
        Heap::agrees_except(*final(heap), *old(heap), addr),
        final(heap).addr_limit() == old(heap).addr_limit() + 1,
        final(heap).label_at(addr) == label,
        final(heap).elems_at(addr).len() == len,
        forall|i: int|
            0 <= i < len ==> call_ensures(
                func,
                ((i as usize),),
                #[trigger] final(heap).elems_at(addr)[i],
            ),
        AllocInfo::alloc_effect(
            old(heap).spec_info(),
            final(heap).spec_info(),
            spec_block_size::<E, L>(len as int),
        ),
{
    let mut elements: Vec<E> = Vec::new();
    let mut i: usize = 0;
    while i < len
        invariant
            i <= len,
            elements@.len() == i,
            forall|k: usize| k < len ==> call_requires(func, (k,)),
            forall|j: int| 0 <= j < i ==> call_ensures(func, ((j as usize),), elements@[j]),
        decreases len - i,
    {
        elements.push(func(i));
        i = i + 1;
    }
    let (size, align) = MemBlock::<E, L>::memory_layout(len);
    heap.allocate(MemBlock::new(label, elements), size, align)
}

/// Allocate a fresh block whose label and elements are clones of the block
/// at `addr`.  Returns the new block's address.
pub fn clone_block_at<E: Clone, L: Clone>(heap: &mut Heap<E, L>, addr: usize, len: usize) -> (
    new_addr: usize)
    requires
        old(heap).wf(),
        block_valid_at(*old(heap), addr, len as int),
        can_alloc_block::<E, L>(*old(heap), len as int),
    ensures
        final(heap).wf(),
        block_valid_at(*final(heap), new_addr, len as int),
        new_addr == old(heap).addr_limit(),
        !old(heap).is_live(new_addr),
        new_addr != addr,
        Heap::agrees_except(*final(heap), *old(heap), new_addr),
        final(heap).addr_limit() == old(heap).addr_limit() + 1,
        cloned(old(heap).label_at(addr), final(heap).label_at(new_addr)),
        final(heap).elems_at(new_addr).len() == len,
        forall|i: int|
            0 <= i < len ==> cloned(
                old(heap).elems_at(addr)[i],
                #[trigger] final(heap).elems_at(new_addr)[i],
            ),
        AllocInfo::alloc_effect(
            old(heap).spec_info(),
            final(heap).spec_info(),
            spec_block_size::<E, L>(len as int),
        ),
{
    let block = heap.block(addr).clone_block();
    let (size, align) = MemBlock::<E, L>::memory_layout(len);
    heap.allocate(block, size, align)
}

/// Allocate a fresh block holding the given label and clones of the
/// elements of the block at `addr`.  Returns the new block's address.
///
/// This is how the reference-counted layer copies a shared block: the
/// elements are cloned, while the new label — the fresh counter around the
/// cloned user data — is supplied by the caller.
pub fn copy_block_elems<E: Clone, L>(
    heap: &mut Heap<E, L>,
    addr: usize,
    len: usize,
    label: L,
) -> (new_addr: usize)
    requires
        old(heap).wf(),
        block_valid_at(*old(heap), addr, len as int),
        can_alloc_block::<E, L>(*old(heap), len as int),
    ensures
        final(heap).wf(),
        block_valid_at(*final(heap), new_addr, len as int),
        new_addr == old(heap).addr_limit(),
        !old(heap).is_live(new_addr),
        new_addr != addr,
        Heap::agrees_except(*final(heap), *old(heap), new_addr),
        final(heap).addr_limit() == old(heap).addr_limit() + 1,
        final(heap).label_at(new_addr) == label,
        final(heap).elems_at(new_addr).len() == len,
        forall|i: int|
            0 <= i < len ==> cloned(
                old(heap).elems_at(addr)[i],
                #[trigger] final(heap).elems_at(new_addr)[i],
            ),
        AllocInfo::alloc_effect(
            old(heap).spec_info(),
            final(heap).spec_info(),
            spec_block_size::<E, L>(len as int),
        ),
{
    let elements = heap.block(addr).clone_elements();
    let (size, align) = MemBlock::<E, L>::memory_layout(len);
    heap.allocate(MemBlock::new(label, elements), size, align)
}

/// Deallocate the block of `len` elements at `addr`, handing its contents
/// back to the caller.
pub fn dealloc_block<E, L>(heap: &mut Heap<E, L>, addr: usize, len: usize) -> (block: MemBlock<
    E,
    L,
>)
    requires
        old(heap).wf(),
        block_valid_at(*old(heap), addr, len as int),
    ensures
        final(heap).wf(),
        !final(heap).is_live(addr),
        block.spec_label() == old(heap).label_at(addr),
        block.spec_elements() == old(heap).elems_at(addr),
        Heap::agrees_except(*final(heap), *old(heap), addr),
        final(heap).addr_limit() == old(heap).addr_limit(),
        AllocInfo::dealloc_effect(
            old(heap).spec_info(),
            final(heap).spec_info(),
            spec_block_size::<E, L>(len as int),
        ),
{
    let (size, align) = MemBlock::<E, L>::memory_layout(len);
    heap.deallocate(addr, size, align)
}

/// Base array that handles converting a memory block into a constructible
/// object.  Stores no length information; callers hand the length in and
/// must be right about it.
pub struct BaseArray<E, L, P: BaseArrayPtr> {
    data: P,
    _marker: PhantomData<(E, L)>,
}

impl<E, L, P: BaseArrayPtr> BaseArray<E, L, P> {
    /// The address of the block this array points at.
    pub closed spec fn spec_addr(&self) -> usize {
        self.data.spec_addr()
    }

    /// The pointer this array was built around.
    pub closed spec fn spec_ptr(&self) -> P {
        self.data
    }

    /// The array points at a live block of exactly `len` elements in
    /// `heap`, recorded there with the layout such a block needs.
    pub open spec fn valid_for(self, heap: Heap<E, L>, len: int) -> bool {
        block_valid_at(heap, self.spec_addr(), len)
    }

    /// Construct an instance of this struct from an instance of the
    /// pointer type `P`.
    pub fn from_ptr(ptr: P) -> (r: Self)
        ensures
            r.spec_ptr() == ptr,
            r.spec_addr() == ptr.spec_addr(),
    {
        BaseArray { data: ptr, _marker: PhantomData }
    }

    /// A reference to the underlying pointer of this base array.
    pub fn as_ptr(&self) -> (r: &P)
        ensures
            *r == self.spec_ptr(),
            r.spec_addr() == self.spec_addr(),
    {
        &self.data
    }

    /// Returns whether or not the internal pointer in this array is null.
    pub fn is_null(&self) -> (r: bool)
        ensures
            r == (self.spec_addr() == NULL),
    {
        self.data.is_null()
    }

    /// The location of element `idx` as the block's address paired with
    /// the element's byte offset inside the block: the label padded to the
    /// element alignment, then `idx` strides of the element size.
    pub fn get_ptr(&self, idx: usize) -> (r: (usize, usize))
        requires
            idx < spec_block_max_len::<E, L>(),
        ensures
            r.0 == self.spec_addr(),
            r.1 == spec_label_pad::<E, L>() + vstd::layout::size_of::<E>() * idx,
    {
        let lpad = crate::mem_block::label_pad_of::<E, L>();
        let (esize, _) = crate::alloc_utils::size_align::<E>();
        proof {
            crate::mem_block::lemma_block_size_fits::<E, L>(idx + 1);
            assert(spec_block_size::<E, L>(idx + 1) == spec_label_pad::<E, L>()
                + vstd::layout::size_of::<E>() * (idx + 1));
            assert(vstd::layout::size_of::<E>() * (idx + 1) == vstd::layout::size_of::<E>() * idx
                + vstd::layout::size_of::<E>()) by (nonlinear_arith);
        }
        (self.data.as_ptr(), lpad + esize * idx)
    }

    /// Creates a new array of size `len`, allocating one block in `heap`.
    ///
    /// Initializes the label with the provided value and element `i` with
    /// `func(i)`.
    pub fn new<F: Fn(usize) -> E>(heap: &mut Heap<E, L>, label: L, len: usize, func: F) -> (r:
        Self)
        requires
            old(heap).wf(),
            len <= spec_block_max_len::<E, L>(),
            can_alloc_block::<E, L>(*old(heap), len as int),
            forall|i: usize| i < len ==> call_requires(func, (i,)),
        ensures
            final(heap).wf(),
            r.valid_for(*final(heap), len as int),
            r.spec_addr() == old(heap).addr_limit(),
            !old(heap).is_live(r.spec_addr()),
            Heap::agrees_except(*final(heap), *old(heap), r.spec_addr()),
            final(heap).addr_limit() == old(heap).addr_limit() + 1,
            final(heap).label_at(r.spec_addr()) == label,
            final(heap).elems_at(r.spec_addr()).len() == len,
            forall|i: int|
                0 <= i < len ==> call_ensures(
                    func,
                    ((i as usize),),
                    #[trigger] final(heap).elems_at(r.spec_addr())[i],
                ),
            AllocInfo::alloc_effect(
                old(heap).spec_info(),
                final(heap).spec_info(),
                spec_block_size::<E, L>(len as int),
            ),
    {
        let addr = alloc_block(heap, label, len, func);
        proof {
            P::null_free_can_hold(addr);
        }
        BaseArray { data: P::from_ptr(addr), _marker: PhantomData }
    }

    /// Runs destructor code for elements and for label by giving the block
    /// back to the allocator whole, then forgets the block.
    pub fn drop(self, heap: &mut Heap<E, L>, len: usize)
        requires
            old(heap).wf(),
            self.valid_for(*old(heap), len as int),
        ensures
            final(heap).wf(),
            !final(heap).is_live(self.spec_addr()),
            Heap::agrees_except(*final(heap), *old(heap), self.spec_addr()),
            final(heap).addr_limit() == old(heap).addr_limit(),
            AllocInfo::dealloc_effect(
                old(heap).spec_info(),
                final(heap).spec_info(),
                spec_block_size::<E, L>(len as int),
            ),
    {
        let _ = self.drop_lazy(heap, len);
    }

    /// Deallocates the block without running destructor code for elements
    /// or label: ownership of the contents moves back to the caller, who
    /// decides what becomes of them.
    pub fn drop_lazy(self, heap: &mut Heap<E, L>, len: usize) -> (block: MemBlock<E, L>)
        requires
            old(heap).wf(),
            self.valid_for(*old(heap), len as int),
        ensures
            final(heap).wf(),
            !final(heap).is_live(self.spec_addr()),
            block.spec_label() == old(heap).label_at(self.spec_addr()),
            block.spec_elements() == old(heap).elems_at(self.spec_addr()),
            Heap::agrees_except(*final(heap), *old(heap), self.spec_addr()),
            final(heap).addr_limit() == old(heap).addr_limit(),
            AllocInfo::dealloc_effect(
                old(heap).spec_info(),
                final(heap).spec_info(),
                spec_block_size::<E, L>(len as int),
            ),
    {
        dealloc_block(heap, self.data.as_ptr(), len)
    }

    /// Returns a reference to the element at the index `idx`, which must
    /// be in bounds for the block.
    pub fn get<'a>(&self, heap: &'a Heap<E, L>, idx: usize) -> (r: &'a E)
        requires
            heap.is_live(self.spec_addr()),
            idx < heap.elems_at(self.spec_addr()).len(),
        ensures
            *r == heap.elems_at(self.spec_addr())[idx as int],
    {
        heap.block(self.data.as_ptr()).get(idx)
    }

    /// Returns a mutable reference to the element at the index `idx`,
    /// which must be in bounds for the block.  Nothing else in the heap
    /// moves, whatever the caller writes through the reference.
    pub fn get_mut<'a>(&self, heap: &'a mut Heap<E, L>, idx: usize) -> (r: &'a mut E)
        requires
            old(heap).wf(),
            old(heap).is_live(self.spec_addr()),
            idx < old(heap).elems_at(self.spec_addr()).len(),
        ensures
            *r == old(heap).elems_at(self.spec_addr())[idx as int],
            final(heap).wf(),
            final(heap).is_live(self.spec_addr()),
            final(heap).elems_at(self.spec_addr()) == old(heap).elems_at(
                self.spec_addr(),
            ).update(idx as int, *final(r)),
            final(heap).label_at(self.spec_addr()) == old(heap).label_at(self.spec_addr()),
            final(heap).size_at(self.spec_addr()) == old(heap).size_at(self.spec_addr()),
            final(heap).align_at(self.spec_addr()) == old(heap).align_at(self.spec_addr()),
            Heap::agrees_except(*final(heap), *old(heap), self.spec_addr()),
            final(heap).addr_limit() == old(heap).addr_limit(),
            final(heap).spec_info() == old(heap).spec_info(),
    {
        heap.block_mut(self.data.as_ptr()).get_mut(idx)
    }

    /// Returns a reference to the label.
    pub fn get_label<'a>(&self, heap: &'a Heap<E, L>) -> (r: &'a L)
        requires
            heap.is_live(self.spec_addr()),
        ensures
            *r == heap.label_at(self.spec_addr()),
    {
        heap.block(self.data.as_ptr()).get_label()
    }

    /// Returns a mutable reference to the label.  Nothing else in the heap
    /// moves, whatever the caller writes through the reference.
    pub fn get_label_mut<'a>(&self, heap: &'a mut Heap<E, L>) -> (r: &'a mut L)
        requires
            old(heap).wf(),
            old(heap).is_live(self.spec_addr()),
        ensures
            *r == old(heap).label_at(self.spec_addr()),
            final(heap).wf(),
            final(heap).is_live(self.spec_addr()),
            final(heap).label_at(self.spec_addr()) == *final(r),
            final(heap).elems_at(self.spec_addr()) == old(heap).elems_at(self.spec_addr()),
            final(heap).size_at(self.spec_addr()) == old(heap).size_at(self.spec_addr()),
            final(heap).align_at(self.spec_addr()) == old(heap).align_at(self.spec_addr()),
            Heap::agrees_except(*final(heap), *old(heap), self.spec_addr()),
            final(heap).addr_limit() == old(heap).addr_limit(),
            final(heap).spec_info() == old(heap).spec_info(),
    {
        heap.block_mut(self.data.as_ptr()).get_label_mut()
    }

    /// Returns a reference to a slice over all the block's elements.
    pub fn as_slice<'a>(&self, heap: &'a Heap<E, L>) -> (r: &'a [E])
        requires
            heap.is_live(self.spec_addr()),
        ensures
            r@ == heap.elems_at(self.spec_addr()),
    {
        heap.block(self.data.as_ptr()).as_slice()
    }

    /// Returns a mutable slice over all the block's elements.  Writes
    /// through it land in this block's element run; the element count, the
    /// label, and every other block stay as they were.
    pub fn as_slice_mut<'a>(&self, heap: &'a mut Heap<E, L>) -> (r: &'a mut [E])
        requires
            old(heap).wf(),
            old(heap).is_live(self.spec_addr()),
        ensures
            r@ == old(heap).elems_at(self.spec_addr()),
            final(heap).wf(),
            final(heap).is_live(self.spec_addr()),
            final(heap).elems_at(self.spec_addr()) == final(r)@,
            final(heap).label_at(self.spec_addr()) == old(heap).label_at(self.spec_addr()),
            final(heap).size_at(self.spec_addr()) == old(heap).size_at(self.spec_addr()),
            final(heap).align_at(self.spec_addr()) == old(heap).align_at(self.spec_addr()),
            Heap::agrees_except(*final(heap), *old(heap), self.spec_addr()),
            final(heap).addr_limit() == old(heap).addr_limit(),
            final(heap).spec_info() == old(heap).spec_info(),
    {
        heap.block_mut(self.data.as_ptr()).as_slice_mut()
    }
}

impl<E: Clone, L: Clone, P: BaseArrayPtr> BaseArray<E, L, P> {
    /// Clones the elements and label of this array into a new array of the
    /// same size, allocated in the same heap.
    pub fn clone(&self, heap: &mut Heap<E, L>, len: usize) -> (r: Self)
        requires
            old(heap).wf(),
            self.valid_for(*old(heap), len as int),
            can_alloc_block::<E, L>(*old(heap), len as int),
        ensures
            final(heap).wf(),
            r.valid_for(*final(heap), len as int),
            r.spec_addr() == old(heap).addr_limit(),
            !old(heap).is_live(r.spec_addr()),
            r.spec_addr() != self.spec_addr(),
            Heap::agrees_except(*final(heap), *old(heap), r.spec_addr()),
            final(heap).addr_limit() == old(heap).addr_limit() + 1,
            cloned(old(heap).label_at(self.spec_addr()), final(heap).label_at(r.spec_addr())),
            final(heap).elems_at(r.spec_addr()).len() == len,
            forall|i: int|
                0 <= i < len ==> cloned(
                    old(heap).elems_at(self.spec_addr())[i],
                    #[trigger] final(heap).elems_at(r.spec_addr())[i],
                ),
            AllocInfo::alloc_effect(
                old(heap).spec_info(),
                final(heap).spec_info(),
                spec_block_size::<E, L>(len as int),
            ),
    {
        let addr = clone_block_at(heap, self.data.as_ptr(), len);
        proof {
            P::null_free_can_hold(addr);
        }
        BaseArray { data: P::from_ptr(addr), _marker: PhantomData }
    }
}

} // verus!
