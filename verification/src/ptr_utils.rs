//! Pointer representations: the three kinds of reference to a memory block.
//!
//! Each kind carries an address into a [`crate::mem_block::Heap`].  The
//! owning kind guarantees at the type level that its address is never null;
//! the raw kind carries any address and is used to empty a reference out to
//! a sentinel without deallocating; the atomic cell kind supports swapping
//! the address it holds and compare-and-swap replacement.
//!
//! The atomic cell mirrors single-word atomic pointer semantics.  This
//! crate's model is sequential: every operation is one indivisible step, so
//! the memory-ordering argument has no further effect here; it is carried so
//! call sites state the ordering they rely on, as they would on the real
//! cell.

use crate::mem_block::NULL;
use vstd::prelude::*;

verus! {

/// Memory orderings accepted by the atomic pointer cell, mirroring the
/// single-word atomic orderings of the platform.
#[derive(Clone, Copy, Debug, PartialEq, Eq, Structural)]
pub enum MemOrder {
    /// No ordering beyond the atomicity of the operation itself.
    Relaxed,
    /// Ordering for the load half of the operation.
    Acquire,
    /// Ordering for the store half of the operation.
    Release,
    /// Acquire and release combined.
    AcqRel,
    /// A single total order over all marked operations.
    SeqCst,
}

/// The capability set shared by every pointer representation: hold an
/// address, tell whether it is null, and convert to and from the raw
/// address.
pub trait BaseArrayPtr: Sized {
    /// The address this pointer currently holds.
    spec fn spec_addr(&self) -> usize;

    /// Which addresses this representation can hold at all.
    spec fn can_hold(addr: usize) -> bool;

    /// Wrap a raw address in this representation.
    fn from_ptr(addr: usize) -> (r: Self)
        requires
            Self::can_hold(addr),
        ensures
            r.spec_addr() == addr,
    ;

    /// The raw address this pointer holds.
    fn as_ptr(&self) -> (r: usize)
        ensures
            r == self.spec_addr(),
    ;

    /// Whether the held address is the null sentinel.
    fn is_null(&self) -> (r: bool)
        ensures
            r == (self.spec_addr() == NULL),
    ;

    /// Every representation can hold any address that is not the null
    /// sentinel.
    proof fn null_free_can_hold(addr: usize)
        requires
            addr != NULL,
        ensures
            Self::can_hold(addr),
    ;
}

/// Move the address held by one pointer representation into another.
pub fn cast<P: BaseArrayPtr, Q: BaseArrayPtr>(ptr: &P) -> (r: Q)
    requires
        Q::can_hold(ptr.spec_addr()),
    ensures
        r.spec_addr() == ptr.spec_addr(),
{
    Q::from_ptr(ptr.as_ptr())
}

/// An owning pointer that is non-null at the type level.
pub struct NonNullPtr {
    addr: usize,
}

impl BaseArrayPtr for NonNullPtr {
    closed spec fn spec_addr(&self) -> usize {
        self.addr
    }

    open spec fn can_hold(addr: usize) -> bool {
        addr != NULL
    }

    fn from_ptr(addr: usize) -> (r: Self) {
        NonNullPtr { addr }
    }

    fn as_ptr(&self) -> (r: usize) {
        self.addr
    }

    fn is_null(&self) -> (r: bool) {
        self.addr == NULL
    }

    proof fn null_free_can_hold(addr: usize) {
    }
}

/// A bare address with no guarantees, used where a reference must be
/// emptied to the null sentinel without deallocating anything.
pub struct RawPtr {
    addr: usize,
}

impl RawPtr {
    /// A raw pointer holding the null sentinel.
    pub fn null() -> (r: Self)
        ensures
            r.spec_addr() == NULL,
    {
        RawPtr { addr: NULL }
    }
}

impl BaseArrayPtr for RawPtr {
    closed spec fn spec_addr(&self) -> usize {
        self.addr
    }

    open spec fn can_hold(addr: usize) -> bool {
        true
    }

    fn from_ptr(addr: usize) -> (r: Self) {
        RawPtr { addr }
    }

    fn as_ptr(&self) -> (r: usize) {
        self.addr
    }

    fn is_null(&self) -> (r: bool) {
        self.addr == NULL
    }

    proof fn null_free_can_hold(addr: usize) {
    }
}

/// An atomically loaded and stored pointer cell.  Beyond holding an
/// address, it offers swap and compare-and-swap replacement; a failed
/// compare never changes the cell and is always safe to retry.
pub struct AtomicPtrCell {
    addr: usize,
}

impl AtomicPtrCell {
    /// What one compare-and-swap step does to the cell: the previous
    /// address is reported back, and the cell takes the candidate exactly
    /// when the previous address matched `current`.
    pub open spec fn cas_post(pre: Self, post: Self, current: usize, new: usize, r: usize) -> bool {
        &&& r == pre.spec_addr()
        &&& post.spec_addr() == if pre.spec_addr() == current {
            new
        } else {
            pre.spec_addr()
        }
    }

    /// Read the held address.
    pub fn load(&self, order: MemOrder) -> (r: usize)
        ensures
            r == self.spec_addr(),
    {
        let _ = order;
        self.addr
    }

    /// Overwrite the held address.
    pub fn store(&mut self, new: usize, order: MemOrder)
        ensures
            final(self).spec_addr() == new,
    {
        let _ = order;
        self.addr = new;
    }

    /// Replace the held address, returning the previous one.
    pub fn swap(&mut self, new: usize, order: MemOrder) -> (r: usize)
        ensures
            r == old(self).spec_addr(),
            final(self).spec_addr() == new,
    {
        let _ = order;
        let prev = self.addr;
        self.addr = new;
        prev
    }

    /// Store `new` if the cell still holds `current`; either way, report
    /// the address the cell held before.
    pub fn compare_and_swap(&mut self, current: usize, new: usize, order: MemOrder) -> (r: usize)
        ensures
            Self::cas_post(*old(self), *final(self), current, new, r),
    {
        let _ = order;
        let prev = self.addr;
        if prev == current {
            self.addr = new;
        }
        prev
    }

    /// Store `new` if the cell still holds `current`.  On success the
    /// previous address comes back in `Ok`; on failure the cell is
    /// untouched and the actual address comes back in `Err`.
    pub fn compare_exchange(
        &mut self,
        current: usize,
        new: usize,
        success: MemOrder,
        failure: MemOrder,
    ) -> (r: Result<usize, usize>)
        ensures
            old(self).spec_addr() == current ==> r == Ok::<usize, usize>(current)
                && final(self).spec_addr() == new,
            old(self).spec_addr() != current ==> r == Err::<usize, usize>(old(self).spec_addr())
                && final(self).spec_addr() == old(self).spec_addr(),
    {
        let _ = success;
        let _ = failure;
        let prev = self.addr;
        if prev == current {
            self.addr = new;
            Ok(prev)
        } else {
            Err(prev)
        }
    }

    /// Like `compare_exchange`, but allowed to fail spuriously even when
    /// the cell holds `current`: a failure only promises that the cell is
    /// unchanged and reports the address it held.
    pub fn compare_exchange_weak(
        &mut self,
        current: usize,
        new: usize,
        success: MemOrder,
        failure: MemOrder,
    ) -> (r: Result<usize, usize>)
        ensures
            match r {
                Ok(prev) => {
                    &&& prev == current
                    &&& old(self).spec_addr() == current
                    &&& final(self).spec_addr() == new
                },
                Err(prev) => {
                    &&& prev == old(self).spec_addr()
                    &&& final(self).spec_addr() == old(self).spec_addr()
                },
            },
    {
        self.compare_exchange(current, new, success, failure)
    }
}

impl BaseArrayPtr for AtomicPtrCell {
    closed spec fn spec_addr(&self) -> usize {
        self.addr
    }

    open spec fn can_hold(addr: usize) -> bool {
        true
    }

    fn from_ptr(addr: usize) -> (r: Self) {
        AtomicPtrCell { addr }
    }

    fn as_ptr(&self) -> (r: usize) {
        self.addr
    }

    fn is_null(&self) -> (r: bool) {
        self.addr == NULL
    }

    proof fn null_free_can_hold(addr: usize) {
    }
}

/// Compare-and-swap correctness: on a cell holding address `a`, a
/// compare-and-swap against `a` with candidate `b` succeeds and the cell
/// then holds `b`; a second compare-and-swap against `a` with another
/// candidate fails, reports the actual address `b`, and leaves the cell
/// unchanged, so the rejected candidate stays with the caller.
pub proof fn lemma_cas_correctness(
    cell0: AtomicPtrCell,
    cell1: AtomicPtrCell,
    cell2: AtomicPtrCell,
    a: usize,
    b: usize,
    c: usize,
    r1: usize,
    r2: usize,
)
    requires
        a != b,
        cell0.spec_addr() == a,
        AtomicPtrCell::cas_post(cell0, cell1, a, b, r1),
        AtomicPtrCell::cas_post(cell1, cell2, a, c, r2),
    ensures
        r1 == a,
        cell1.spec_addr() == b,
        r2 == b,
        cell2.spec_addr() == b,
{
}

} // verus!
