//! Memory blocks and the allocator model they live in.
//!
//! A [`MemBlock`] holds one label value and a run of elements whose count is
//! fixed when the block is made.  A [`Heap`] stands for the process-wide
//! allocator: it owns every live block, hands out addresses, keeps the exact
//! layout each block was allocated with, and accounts for every byte
//! allocated and deallocated.  All other types in this crate reach their
//! blocks through a `Heap`, so each of their operations takes the heap as an
//! explicit parameter.

use crate::alloc_utils::{aligned_size, lemma_aligned_size, max, safe_div, size_align,
    spec_aligned_size};
use vstd::pervasive::VecAdditionalExecFns;
use vstd::prelude::*;

verus! {

/// The address value that no valid block ever has.  References that have
/// been emptied out are overwritten with this value.
pub const NULL: usize = usize::MAX;

/// The size of a label of type `L` padded to the alignment of element type
/// `E`, which is the offset of the first element in a nonempty block.
pub open spec fn spec_label_pad<E, L>() -> int {
    spec_aligned_size(
        vstd::layout::size_of::<L>() as int,
        vstd::layout::align_of::<E>() as int,
    )
}

/// The byte size of a block holding one `L` and `len` values of type `E`.
/// A block of no elements takes exactly the label's own size.
pub open spec fn spec_block_size<E, L>(len: int) -> int {
    if len == 0 {
        vstd::layout::size_of::<L>() as int
    } else {
        spec_label_pad::<E, L>() + vstd::layout::size_of::<E>() * len
    }
}

/// The alignment of a block holding one `L` and `len` values of type `E`.
pub open spec fn spec_block_align<E, L>(len: int) -> int {
    if len == 0 {
        vstd::layout::align_of::<L>() as int
    } else if vstd::layout::align_of::<L>() > vstd::layout::align_of::<E>() {
        vstd::layout::align_of::<L>() as int
    } else {
        vstd::layout::align_of::<E>() as int
    }
}

/// The largest element count whose block size stays within the platform's
/// maximum addressable offset (`isize::MAX`); effectively unbounded for
/// zero-sized elements.
pub open spec fn spec_block_max_len<E, L>() -> int {
    let m = isize::MAX as int;
    if spec_label_pad::<E, L>() > m {
        0
    } else if vstd::layout::size_of::<E>() == 0 {
        m
    } else {
        (m - spec_label_pad::<E, L>()) / vstd::layout::size_of::<E>() as int
    }
}

/// Computes the padded label size for concrete types, together with the
/// layout facts needed to reason about it.
pub(crate) fn label_pad_of<E, L>() -> (r: usize)
    ensures
        r == spec_label_pad::<E, L>(),
        spec_label_pad::<E, L>() >= vstd::layout::size_of::<L>(),
        vstd::layout::size_of::<L>() <= isize::MAX,
        vstd::layout::size_of::<E>() <= isize::MAX,
        vstd::layout::align_of::<E>() > 0,
        vstd::layout::align_of::<L>() > 0,
{
    let (lsize, _lalign) = size_align::<L>();
    let (_esize, ealign) = size_align::<E>();
    proof {
        lemma_aligned_size(lsize as int, ealign as int);
        if lsize < ealign {
            assert(lsize as int % ealign as int == lsize as int) by (nonlinear_arith)
                requires
                    0 <= lsize < ealign,
            ;
        }
    }
    aligned_size(lsize, ealign)
}

/// Get the maximum length of a memory block, based on the types that it
/// contains.  Blocks longer than this would exceed `isize::MAX` bytes.
pub fn block_max_len<E, L>() -> (r: usize)
    ensures
        r == spec_block_max_len::<E, L>(),
{
    let m = isize::MAX as usize;
    let (esize, _ealign) = size_align::<E>();
    let lpad = label_pad_of::<E, L>();
    if lpad > m {
        0
    } else if esize == 0 {
        m
    } else {
        safe_div(m - lpad, esize)
    }
}

/// Any length within `spec_block_max_len` gives a block that fits in the
/// platform's maximum addressable offset.
pub proof fn lemma_block_size_fits<E, L>(len: int)
    requires
        0 <= len <= spec_block_max_len::<E, L>(),
        spec_label_pad::<E, L>() >= vstd::layout::size_of::<L>(),
        vstd::layout::size_of::<L>() <= isize::MAX,
    ensures
        spec_block_size::<E, L>(len) <= isize::MAX,
        spec_block_size::<E, L>(len) >= 0,
{
    let m = isize::MAX as int;
    let lpad = spec_label_pad::<E, L>();
    let esize = vstd::layout::size_of::<E>() as int;
    if len == 0 {
    } else {
        assert(lpad <= m);
        if esize == 0 {
        } else {
            assert(len <= (m - lpad) / esize);
            assert(esize * len <= m - lpad) by (nonlinear_arith)
                requires
                    esize > 0,
                    0 <= len <= (m - lpad) / esize,
                    0 <= lpad <= m,
            ;
        }
        assert(esize * len >= 0) by (nonlinear_arith)
            requires
                esize >= 0,
                len >= 0,
        ;
    }
}

/// An array block that holds one label of type `L` and a run of elements of
/// type `E`.  The element count is fixed when the block is made; the block
/// itself does not know how many of its elements its owner still considers
/// valid — that bookkeeping belongs to the reference types around it.
pub struct MemBlock<E, L> {
    label: L,
    elements: Vec<E>,
}

impl<E, L> MemBlock<E, L> {
    /// The label stored at the lowest offset of the block.
    pub closed spec fn spec_label(&self) -> L {
        self.label
    }

    /// The run of elements stored after the label.
    pub closed spec fn spec_elements(&self) -> Seq<E> {
        self.elements@
    }

    /// Get size and alignment of the memory that a block of length `len`
    /// would need.  Returns a tuple in the form `(size, align)`.
    pub fn memory_layout(len: usize) -> (r: (usize, usize))
        requires
            len <= spec_block_max_len::<E, L>(),
        ensures
            r.0 == spec_block_size::<E, L>(len as int),
            r.1 == spec_block_align::<E, L>(len as int),
            r.0 <= isize::MAX,
            r.1 > 0,
    {
        let (esize, ealign) = size_align::<E>();
        let (lsize, lalign) = size_align::<L>();
        if len == 0 {
            (lsize, lalign)
        } else {
            let lpad = label_pad_of::<E, L>();
            proof {
                lemma_aligned_size(lsize as int, ealign as int);
                lemma_block_size_fits::<E, L>(len as int);
            }
            let m = isize::MAX as usize;
            if esize == 0 {
                (lpad, max(lalign, ealign))
            } else {
                assert(esize * len <= m - lpad) by {
                    assert(spec_block_size::<E, L>(len as int) <= m);
                }
                (lpad + esize * len, max(lalign, ealign))
            }
        }
    }

    /// Make a block from its label and its elements.
    pub fn new(label: L, elements: Vec<E>) -> (r: Self)
        ensures
            r.spec_label() == label,
            r.spec_elements() == elements@,
    {
        MemBlock { label, elements }
    }

    /// The number of elements in the block.
    pub fn len(&self) -> (r: usize)
        ensures
            r == self.spec_elements().len(),
    {
        self.elements.len()
    }

    /// A reference to the label.
    pub fn get_label(&self) -> (r: &L)
        ensures
            *r == self.spec_label(),
    {
        &self.label
    }

    /// A mutable reference to the label.
    pub fn get_label_mut(&mut self) -> (r: &mut L)
        ensures
            *r == old(self).spec_label(),
            final(self).spec_label() == *final(r),
            final(self).spec_elements() == old(self).spec_elements(),
    {
        &mut self.label
    }

    /// A reference to the element at index `idx`, which the caller must
    /// prove in bounds: this is address arithmetic with no runtime check.
    pub fn get(&self, idx: usize) -> (r: &E)
        requires
            idx < self.spec_elements().len(),
        ensures
            *r == self.spec_elements()[idx as int],
    {
        &self.elements[idx]
    }

    /// A mutable reference to the element at index `idx`, which the caller
    /// must prove in bounds: this is address arithmetic with no runtime
    /// check.
    pub fn get_mut(&mut self, idx: usize) -> (r: &mut E)
        requires
            idx < old(self).spec_elements().len(),
        ensures
            *r == old(self).spec_elements()[idx as int],
            final(self).spec_elements() == old(self).spec_elements().update(
                idx as int,
                *final(r),
            ),
            final(self).spec_label() == old(self).spec_label(),
    {
        &mut self.elements[idx]
    }

    /// Take the block apart into its label and its elements, transferring
    /// ownership of both to the caller.
    pub fn into_parts(self) -> (r: (L, Vec<E>))
        ensures
            r.0 == self.spec_label(),
            r.1@ == self.spec_elements(),
    {
        let MemBlock { label, elements } = self;
        (label, elements)
    }

    /// A slice over all elements of the block.
    pub fn as_slice(&self) -> (r: &[E])
        ensures
            r@ == self.spec_elements(),
    {
        self.elements.as_slice()
    }

    /// A mutable slice over all elements of the block.
    pub fn as_slice_mut(&mut self) -> (r: &mut [E])
        ensures
            r@ == old(self).spec_elements(),
            final(self).spec_elements() == final(r)@,
            final(self).spec_label() == old(self).spec_label(),
    {
        self.elements.as_mut_slice()
    }
}

impl<E: Clone, L: Clone> MemBlock<E, L> {
    /// A fresh block whose label and elements are clones of this one's.
    pub fn clone_block(&self) -> (r: Self)
        ensures
            cloned(self.spec_label(), r.spec_label()),
            r.spec_elements().len() == self.spec_elements().len(),
            forall|i: int|
                0 <= i < self.spec_elements().len() ==> cloned(
                    self.spec_elements()[i],
                    #[trigger] r.spec_elements()[i],
                ),
    {
        MemBlock { label: self.label.clone(), elements: self.elements.clone() }
    }
}

impl<E: Clone, L> MemBlock<E, L> {
    /// A fresh vector whose entries are clones of this block's elements.
    pub fn clone_elements(&self) -> (r: Vec<E>)
        ensures
            r@.len() == self.spec_elements().len(),
            forall|i: int|
                0 <= i < self.spec_elements().len() ==> cloned(
                    self.spec_elements()[i],
                    #[trigger] r@[i],
                ),
    {
        self.elements.clone()
    }
}

/// Running totals kept by the allocator model: how many allocations and
/// deallocations happened, and how many bytes they moved.
#[derive(Clone, Copy, Debug, PartialEq, Eq, Structural)]
pub struct AllocInfo {
    /// Number of allocations performed.
    pub allocs: usize,
    /// Number of deallocations performed.
    pub deallocs: usize,
    /// Total bytes allocated.
    pub bytes_alloc: usize,
    /// Total bytes deallocated.
    pub bytes_dealloc: usize,
}

impl AllocInfo {
    /// Bytes currently held: allocated and not yet deallocated.
    pub open spec fn net(self) -> int {
        self.bytes_alloc - self.bytes_dealloc
    }

    /// What one allocation of `size` bytes does to the accounting.
    pub open spec fn alloc_effect(pre: AllocInfo, post: AllocInfo, size: int) -> bool {
        &&& post.allocs == pre.allocs + 1
        &&& post.deallocs == pre.deallocs
        &&& post.bytes_alloc == pre.bytes_alloc + size
        &&& post.bytes_dealloc == pre.bytes_dealloc
    }

    /// What one deallocation of `size` bytes does to the accounting.
    pub open spec fn dealloc_effect(pre: AllocInfo, post: AllocInfo, size: int) -> bool {
        &&& post.allocs == pre.allocs
        &&& post.deallocs == pre.deallocs + 1
        &&& post.bytes_alloc == pre.bytes_alloc
        &&& post.bytes_dealloc == pre.bytes_dealloc + size
    }

    /// Fresh accounting with every counter at zero.
    pub fn new() -> (r: Self)
        ensures
            r.allocs == 0,
            r.deallocs == 0,
            r.bytes_alloc == 0,
            r.bytes_dealloc == 0,
    {
        AllocInfo { allocs: 0, deallocs: 0, bytes_alloc: 0, bytes_dealloc: 0 }
    }

    /// The counters accumulated since `origin` was recorded.
    pub fn relative_to(&self, origin: &AllocInfo) -> (r: AllocInfo)
        requires
            origin.allocs <= self.allocs,
            origin.deallocs <= self.deallocs,
            origin.bytes_alloc <= self.bytes_alloc,
            origin.bytes_dealloc <= self.bytes_dealloc,
        ensures
            r.allocs == self.allocs - origin.allocs,
            r.deallocs == self.deallocs - origin.deallocs,
            r.bytes_alloc == self.bytes_alloc - origin.bytes_alloc,
            r.bytes_dealloc == self.bytes_dealloc - origin.bytes_dealloc,
    {
        AllocInfo {
            allocs: self.allocs - origin.allocs,
            deallocs: self.deallocs - origin.deallocs,
            bytes_alloc: self.bytes_alloc - origin.bytes_alloc,
            bytes_dealloc: self.bytes_dealloc - origin.bytes_dealloc,
        }
    }
}

/// No-leak round trip: allocating a block and later deallocating it with
/// the same layout moves exactly as many bytes out as in, whatever else is
/// allocated or freed in between.  Constructors of the array types in this
/// crate promise `alloc_effect` with the block size of their length, and
/// their destroy operations promise `dealloc_effect` with the same size, so
/// one construction followed by one destruction nets to zero bytes held.
pub proof fn lemma_no_leak_round_trip(
    i0: AllocInfo,
    i1: AllocInfo,
    i2: AllocInfo,
    i3: AllocInfo,
    size: int,
)
    requires
        AllocInfo::alloc_effect(i0, i1, size),
        i2.net() - i1.net() == 0,
        AllocInfo::dealloc_effect(i2, i3, size),
    ensures
        i3.net() == i0.net(),
        i3.bytes_alloc - i0.bytes_alloc == i3.bytes_dealloc - i0.bytes_dealloc,
{
}

struct Slot<E, L> {
    block: MemBlock<E, L>,
    size: usize,
    align: usize,
}

/// The byte count a slot contributes to the live total.
spec fn slot_bytes<E, L>(s: Option<Slot<E, L>>) -> int {
    match s {
        Some(slot) => slot.size as int,
        None => 0,
    }
}

/// Sum of the sizes of all live slots.
spec fn live_bytes<E, L>(s: Seq<Option<Slot<E, L>>>) -> int
    decreases s.len(),
{
    if s.len() == 0 {
        0
    } else {
        live_bytes(s.drop_last()) + slot_bytes(s.last())
    }
}

/// The number of dead (already deallocated) slots.
spec fn dead_count<E, L>(s: Seq<Option<Slot<E, L>>>) -> int
    decreases s.len(),
{
    if s.len() == 0 {
        0
    } else {
        dead_count(s.drop_last()) + if s.last() is None {
            1int
        } else {
            0int
        }
    }
}

proof fn lemma_totals_bounds<E, L>(s: Seq<Option<Slot<E, L>>>)
    ensures
        live_bytes(s) >= 0,
        0 <= dead_count(s) <= s.len(),
        forall|i: int|
            0 <= i < s.len() ==> slot_bytes(#[trigger] s[i]) <= live_bytes(s),
    decreases s.len(),
{
    if s.len() > 0 {
        lemma_totals_bounds(s.drop_last());
        assert forall|i: int|
            0 <= i < s.len() implies slot_bytes(#[trigger] s[i]) <= live_bytes(s) by {
            if i < s.len() - 1 {
                assert(s.drop_last()[i] == s[i]);
            } else {
                assert(s.last() == s[i]);
            }
        }
    }
}

proof fn lemma_totals_push<E, L>(s: Seq<Option<Slot<E, L>>>, v: Option<Slot<E, L>>)
    ensures
        live_bytes(s.push(v)) == live_bytes(s) + slot_bytes(v),
        dead_count(s.push(v)) == dead_count(s) + if v is None {
            1int
        } else {
            0int
        },
{
    assert(s.push(v).drop_last() == s);
    assert(s.push(v).last() == v);
}

/// A sequence with a live slot has strictly fewer dead slots than entries.
proof fn lemma_dead_count_live<E, L>(s: Seq<Option<Slot<E, L>>>, i: int)
    requires
        0 <= i < s.len(),
        s[i] is Some,
    ensures
        dead_count(s) < s.len(),
    decreases s.len(),
{
    lemma_totals_bounds(s.drop_last());
    if i == s.len() - 1 {
        assert(s.last() == s[i]);
    } else {
        assert(s.drop_last()[i] == s[i]);
        lemma_dead_count_live(s.drop_last(), i);
    }
}

proof fn lemma_totals_update<E, L>(s: Seq<Option<Slot<E, L>>>, i: int, v: Option<Slot<E, L>>)
    requires
        0 <= i < s.len(),
    ensures
        live_bytes(s.update(i, v)) == live_bytes(s) - slot_bytes(s[i]) + slot_bytes(v),
        dead_count(s.update(i, v)) == dead_count(s) - (if s[i] is None {
            1int
        } else {
            0int
        }) + (if v is None {
            1int
        } else {
            0int
        }),
    decreases s.len(),
{
    let t = s.update(i, v);
    if i == s.len() - 1 {
        assert(t.drop_last() == s.drop_last());
        assert(t.last() == v);
        assert(s.last() == s[i]);
    } else {
        lemma_totals_update(s.drop_last(), i, v);
        assert(t.drop_last() == s.drop_last().update(i, v));
        assert(t.last() == s.last());
        assert(s.drop_last()[i] == s[i]);
    }
}

/// The allocator model.  Every block in use by this crate lives in exactly
/// one `Heap`; an address is valid only for the heap that issued it.  The
/// heap remembers the layout each block was allocated with, and a
/// deallocation must present that exact layout back, as a real allocator
/// demands.
pub struct Heap<E, L> {
    slots: Vec<Option<Slot<E, L>>>,
    info: AllocInfo,
}

impl<E, L> Heap<E, L> {
    /// Addresses at and above this limit have never been issued.
    pub closed spec fn addr_limit(&self) -> int {
        self.slots@.len() as int
    }

    /// Whether `addr` names a block that is currently allocated.
    pub closed spec fn is_live(&self, addr: usize) -> bool {
        addr < self.slots@.len() && self.slots@[addr as int] is Some
    }

    /// The block at a live address.
    pub closed spec fn block_at(&self, addr: usize) -> MemBlock<E, L>
        recommends
            self.is_live(addr),
    {
        self.slots@[addr as int]->Some_0.block
    }

    /// The label of the block at a live address.
    pub open spec fn label_at(&self, addr: usize) -> L
        recommends
            self.is_live(addr),
    {
        self.block_at(addr).spec_label()
    }

    /// The elements of the block at a live address.
    pub open spec fn elems_at(&self, addr: usize) -> Seq<E>
        recommends
            self.is_live(addr),
    {
        self.block_at(addr).spec_elements()
    }

    /// The byte size the block at `addr` was allocated with.
    pub closed spec fn size_at(&self, addr: usize) -> usize
        recommends
            self.is_live(addr),
    {
        self.slots@[addr as int]->Some_0.size
    }

    /// The alignment the block at `addr` was allocated with.
    pub closed spec fn align_at(&self, addr: usize) -> usize
        recommends
            self.is_live(addr),
    {
        self.slots@[addr as int]->Some_0.align
    }

    /// The accounting totals so far.
    pub closed spec fn spec_info(&self) -> AllocInfo {
        self.info
    }

    /// The heap's internal bookkeeping is consistent: counters match the
    /// slots, and the live bytes are exactly what was allocated and not yet
    /// deallocated.
    pub closed spec fn wf(&self) -> bool {
        &&& self.info.allocs == self.slots@.len()
        &&& self.info.deallocs == dead_count(self.slots@)
        &&& self.info.bytes_dealloc <= self.info.bytes_alloc
        &&& self.info.bytes_alloc - self.info.bytes_dealloc == live_bytes(self.slots@)
    }

    /// Two heaps agree on every address other than `addr`: same liveness,
    /// same block, same stored layout.
    pub open spec fn agrees_except(h1: Self, h2: Self, addr: usize) -> bool {
        forall|a: usize|
            a != addr ==> {
                &&& #[trigger] h1.is_live(a) == h2.is_live(a)
                &&& (h1.is_live(a) ==> {
                    &&& h1.block_at(a) == h2.block_at(a)
                    &&& h1.size_at(a) == h2.size_at(a)
                    &&& h1.align_at(a) == h2.align_at(a)
                })
            }
    }

    /// Whether the heap can take one more allocation of `size` bytes
    /// without running past the machine's limits.
    pub open spec fn can_alloc(&self, size: usize) -> bool {
        &&& self.addr_limit() < NULL
        &&& self.spec_info().bytes_alloc + size <= usize::MAX
    }

    /// An empty heap: nothing allocated yet, every counter zero.
    pub fn new() -> (r: Self)
        ensures
            r.wf(),
            r.addr_limit() == 0,
            forall|a: usize| !r.is_live(a),
            r.spec_info() == (AllocInfo { allocs: 0, deallocs: 0, bytes_alloc: 0, bytes_dealloc: 0 }),
    {
        Heap { slots: Vec::new(), info: AllocInfo::new() }
    }

    /// The accounting totals so far.
    pub fn info(&self) -> (r: AllocInfo)
        ensures
            r == self.spec_info(),
    {
        self.info
    }

    /// Allocate storage for `block`, recorded under the given layout.
    /// Returns the fresh, never-null address of the new block.
    pub fn allocate(&mut self, block: MemBlock<E, L>, size: usize, align: usize) -> (addr: usize)
        requires
            old(self).wf(),
            old(self).can_alloc(size),
        ensures
            final(self).wf(),
            addr == old(self).addr_limit(),
            addr != NULL,
            !old(self).is_live(addr),
            final(self).is_live(addr),
            final(self).block_at(addr) == block,
            final(self).size_at(addr) == size,
            final(self).align_at(addr) == align,
            Self::agrees_except(*final(self), *old(self), addr),
            final(self).addr_limit() == old(self).addr_limit() + 1,
            final(self).spec_info().allocs == old(self).spec_info().allocs + 1,
            final(self).spec_info().deallocs == old(self).spec_info().deallocs,
            final(self).spec_info().bytes_alloc == old(self).spec_info().bytes_alloc + size,
            final(self).spec_info().bytes_dealloc == old(self).spec_info().bytes_dealloc,
    {
        proof {
            lemma_totals_push(self.slots@, Some(Slot { block, size, align }));
            lemma_totals_bounds(self.slots@);
        }
        let addr = self.slots.len();
        self.slots.push(Some(Slot { block, size, align }));
        self.info.allocs = self.info.allocs + 1;
        self.info.bytes_alloc = self.info.bytes_alloc + size;
        addr
    }

    /// Deallocate the block at `addr`, handing its contents back to the
    /// caller.  The layout presented must be exactly the layout the block
    /// was allocated with.
    pub fn deallocate(&mut self, addr: usize, size: usize, align: usize) -> (block: MemBlock<E, L>)
        requires
            old(self).wf(),
            old(self).is_live(addr),
            size == old(self).size_at(addr),
            align == old(self).align_at(addr),
        ensures
            final(self).wf(),
            !final(self).is_live(addr),
            block == old(self).block_at(addr),
            Self::agrees_except(*final(self), *old(self), addr),
            final(self).addr_limit() == old(self).addr_limit(),
            final(self).spec_info().allocs == old(self).spec_info().allocs,
            final(self).spec_info().deallocs == old(self).spec_info().deallocs + 1,
            final(self).spec_info().bytes_alloc == old(self).spec_info().bytes_alloc,
            final(self).spec_info().bytes_dealloc == old(self).spec_info().bytes_dealloc + size,
    {
        proof {
            lemma_totals_bounds(self.slots@);
            lemma_dead_count_live(self.slots@, addr as int);
            lemma_totals_update(self.slots@, addr as int, None);
        }
        let mut taken: Option<Slot<E, L>> = None;
        self.slots.set_and_swap(addr, &mut taken);
        self.info.deallocs = self.info.deallocs + 1;
        self.info.bytes_dealloc = self.info.bytes_dealloc + size;
        match taken {
            Some(slot) => slot.block,
            None => unreached(),
        }
    }

    /// The number of elements in the block at `addr`.
    pub fn block_len(&self, addr: usize) -> (r: usize)
        requires
            self.is_live(addr),
        ensures
            r == self.elems_at(addr).len(),
    {
        self.block(addr).len()
    }

    /// A reference to the block at a live address.
    pub fn block(&self, addr: usize) -> (r: &MemBlock<E, L>)
        requires
            self.is_live(addr),
        ensures
            *r == self.block_at(addr),
    {
        match &self.slots[addr] {
            Some(slot) => &slot.block,
            None => unreached(),
        }
    }

    /// A mutable reference to the block at a live address.  The heap's
    /// accounting, the block's stored layout, and every other block are
    /// untouched, whatever the caller writes through the reference.
    pub fn block_mut(&mut self, addr: usize) -> (r: &mut MemBlock<E, L>)
        requires
            old(self).wf(),
            old(self).is_live(addr),
        ensures
            *r == old(self).block_at(addr),
            final(self).wf(),
            final(self).is_live(addr),
            final(self).block_at(addr) == *final(r),
            final(self).size_at(addr) == old(self).size_at(addr),
            final(self).align_at(addr) == old(self).align_at(addr),
            Self::agrees_except(*final(self), *old(self), addr),
            final(self).addr_limit() == old(self).addr_limit(),
            final(self).spec_info() == old(self).spec_info(),
    {
        proof {
            let s = self.slots@;
            let i = addr as int;
            assert forall|v: Option<Slot<E, L>>|
                slot_bytes(v) == slot_bytes(s[i]) && v is Some implies live_bytes(
                #[trigger] s.update(i, v),
            ) == live_bytes(s) && dead_count(s.update(i, v)) == dead_count(s) by {
                lemma_totals_update(s, i, v);
            }
        }
        let slot_opt = &mut self.slots[addr];
        match slot_opt {
            Some(slot) => &mut slot.block,
            None => unreached(),
        }
    }
}

/// Reports whether `addr` can name a valid block at all: valid references
/// are never the null sentinel.
pub fn check_null_ref(addr: usize) -> (r: bool)
    ensures
        r == (addr != NULL),
{
    addr != NULL
}

} // verus!
