//! Naively reference counted arrays.
//!
//! `RcArray` layers clone-increments and drop-decrements-and-frees-at-zero
//! semantics on a [`SafeArray`] whose label is a [`RefCounter`] around the
//! user's label.  The counting is naive: nothing detects cycles, so a cycle
//! of references leaks by design.
//!
//! Mutation of a shared block is gated: `get_mut` and `insert` succeed only
//! while the reference count reads exactly one, so no other reference can
//! observe a torn value.

use crate::base::{can_alloc_block, copy_block_elems};
use crate::generic::{SafeArray, SafeArrayPtr};
use crate::mem_block::{AllocInfo, Heap, NULL, spec_block_max_len, spec_block_size,
    spec_label_pad};
use crate::p_types::{FatArrayPtr, ThinArrayPtr};
use crate::ref_counters::{ArcStruct, RcStruct, RefCounter};
use core::marker::PhantomData;
use vstd::prelude::*;

verus! {

/// Reference counted array, referenced using a fat pointer.
pub type FpRcArray<E, L> = RcArray<E, L, RcStruct<L>, FatArrayPtr<E, RcStruct<L>>>;

/// Atomically reference counted array, referenced using a fat pointer.
pub type FpArcArray<E, L> = RcArray<E, L, ArcStruct<L>, FatArrayPtr<E, ArcStruct<L>>>;

/// Reference counted array, referenced using a thin pointer.
pub type TpRcArray<E, L> = RcArray<E, L, RcStruct<L>, ThinArrayPtr<E, RcStruct<L>>>;

/// Atomically reference counted array, referenced using a thin pointer.
pub type TpArcArray<E, L> = RcArray<E, L, ArcStruct<L>, ThinArrayPtr<E, ArcStruct<L>>>;

/// What one reference clone does to the heap: the count at `addr` rises by
/// one and nothing else moves — in particular, no allocation happens.
pub open spec fn clone_effect<E, L, R: RefCounter<L>>(
    pre: Heap<E, R>,
    post: Heap<E, R>,
    addr: usize,
) -> bool {
    &&& pre.is_live(addr)
    &&& post.is_live(addr)
    &&& post.label_at(addr).spec_counter() == pre.label_at(addr).spec_counter() + 1
    &&& post.label_at(addr).spec_data() == pre.label_at(addr).spec_data()
    &&& post.elems_at(addr) == pre.elems_at(addr)
    &&& post.size_at(addr) == pre.size_at(addr)
    &&& post.align_at(addr) == pre.align_at(addr)
    &&& Heap::agrees_except(post, pre, addr)
    &&& post.addr_limit() == pre.addr_limit()
    &&& post.spec_info() == pre.spec_info()
}

/// What dropping one reference does to the heap: while other references
/// remain the count at `addr` falls by one and nothing else moves; the drop
/// that sees the count reach zero destroys the block and releases exactly
/// its bytes.
pub open spec fn drop_effect<E, L, R: RefCounter<L>>(
    pre: Heap<E, R>,
    post: Heap<E, R>,
    addr: usize,
    len: int,
) -> bool {
    &&& pre.is_live(addr)
    &&& Heap::agrees_except(post, pre, addr)
    &&& post.addr_limit() == pre.addr_limit()
    &&& if pre.label_at(addr).spec_counter() > 1 {
        &&& post.is_live(addr)
        &&& post.label_at(addr).spec_counter() == pre.label_at(addr).spec_counter() - 1
        &&& post.label_at(addr).spec_data() == pre.label_at(addr).spec_data()
        &&& post.elems_at(addr) == pre.elems_at(addr)
        &&& post.size_at(addr) == pre.size_at(addr)
        &&& post.align_at(addr) == pre.align_at(addr)
        &&& post.spec_info() == pre.spec_info()
    } else {
        &&& !post.is_live(addr)
        &&& AllocInfo::dealloc_effect(
            pre.spec_info(),
            post.spec_info(),
            spec_block_size::<E, R>(len),
        )
    }
}

/// `RcArray` is a generic, implementation-agnostic reference-counted
/// array: it contains the counting logic, and is parameterized over the
/// counter kind `R` and the pointer representation `P`.
pub struct RcArray<E, L, R: RefCounter<L>, P: SafeArrayPtr<E, R>> {
    data: SafeArray<E, R, P>,
    _marker: PhantomData<L>,
}

impl<E, L, R: RefCounter<L>, P: SafeArrayPtr<E, R>> RcArray<E, L, R, P> {
    /// The array this reference aliases, counter label included.
    pub closed spec fn spec_inner(self) -> SafeArray<E, R, P> {
        self.data
    }

    /// The address of the shared block.
    pub open spec fn spec_addr(&self) -> usize {
        self.spec_inner().spec_addr()
    }

    /// The number of elements in the shared block.
    pub open spec fn spec_len(&self) -> usize {
        self.spec_inner().spec_len()
    }

    /// The reference names a live block of its length in `heap`.
    pub open spec fn wf(self, heap: Heap<E, R>) -> bool {
        self.spec_inner().wf(heap)
    }

    /// How many references share the block, as the counter stored in the
    /// block reads right now.
    pub open spec fn spec_count(&self, heap: Heap<E, R>) -> usize {
        heap.label_at(self.spec_addr()).spec_counter()
    }

    /// The user's label, stored beside the counter in the block.
    pub open spec fn spec_label(&self, heap: Heap<E, R>) -> L {
        heap.label_at(self.spec_addr()).spec_data()
    }

    /// Create a new array, wrapping `label` in a fresh counter set to one,
    /// with element `i` initialized to `func(i)`.
    pub fn with_label<F: Fn(usize) -> E>(
        heap: &mut Heap<E, R>,
        label: L,
        len: usize,
        func: F,
    ) -> (r: Self)
        requires
            old(heap).wf(),
            len <= spec_block_max_len::<E, R>(),
            can_alloc_block::<E, R>(*old(heap), len as int),
            forall|i: usize| i < len ==> call_requires(func, (i,)),
        ensures
            final(heap).wf(),
            r.wf(*final(heap)),
            r.spec_len() == len,
            r.spec_count(*final(heap)) == 1,
            r.spec_label(*final(heap)) == label,
            r.spec_addr() == old(heap).addr_limit(),
            !old(heap).is_live(r.spec_addr()),
            Heap::agrees_except(*final(heap), *old(heap), r.spec_addr()),
            final(heap).addr_limit() == old(heap).addr_limit() + 1,
            final(heap).elems_at(r.spec_addr()).len() == len,
            forall|i: int|
                0 <= i < len ==> call_ensures(
                    func,
                    ((i as usize),),
                    #[trigger] final(heap).elems_at(r.spec_addr())[i],
                ),
            AllocInfo::alloc_effect(
                old(heap).spec_info(),
                final(heap).spec_info(),
                spec_block_size::<E, R>(len as int),
            ),
    {
        RcArray { data: SafeArray::with_label(heap, R::new(label), len, func), _marker: PhantomData }
    }

    /// Returns the reference count of the data this `RcArray` points to.
    pub fn ref_count(&self, heap: &Heap<E, R>) -> (r: usize)
        requires
            self.wf(*heap),
        ensures
            r == self.spec_count(*heap),
    {
        self.data.get_label(heap).counter()
    }

    /// Produce a second reference aliasing the same block: the counter
    /// rises by one and no allocation happens.
    pub fn clone(&self, heap: &mut Heap<E, R>) -> (r: Self)
        requires
            old(heap).wf(),
            self.wf(*old(heap)),
            self.spec_count(*old(heap)) < usize::MAX,
        ensures
            final(heap).wf(),
            r.spec_addr() == self.spec_addr(),
            r.spec_len() == self.spec_len(),
            r.wf(*final(heap)),
            self.wf(*final(heap)),
            clone_effect::<E, L, R>(*old(heap), *final(heap), self.spec_addr()),
    {
        let len = self.data.len(heap);
        let addr = self.data.as_raw();
        let counter = self.data.get_label_mut(heap);
        let _ = counter.increment();
        RcArray { data: SafeArray::from_raw_parts(addr, len), _marker: PhantomData }
    }

    /// Give this reference up: the counter falls by one, and the reference
    /// that sees it reach zero destroys the block, which must outlive every
    /// other alias.
    pub fn drop(self, heap: &mut Heap<E, R>)
        requires
            old(heap).wf(),
            self.wf(*old(heap)),
            self.spec_count(*old(heap)) >= 1,
        ensures
            final(heap).wf(),
            drop_effect::<E, L, R>(
                *old(heap),
                *final(heap),
                self.spec_addr(),
                self.spec_len() as int,
            ),
    {
        let counter = self.data.get_label_mut(heap);
        let remaining = counter.decrement();
        if remaining == 0 {
            self.data.drop(heap);
        }
    }

    /// Returns an owned version of this array — counter label included —
    /// if the caller has exclusive access, or returns back this reference
    /// otherwise.
    pub fn to_owned(self, heap: &Heap<E, R>) -> (r: Result<SafeArray<E, R, P>, Self>)
        requires
            self.wf(*heap),
        ensures
            match r {
                Ok(arr) => self.spec_count(*heap) <= 1 && arr == self.spec_inner(),
                Err(same) => self.spec_count(*heap) > 1 && same == self,
            },
    {
        if self.ref_count(heap) > 1 {
            Err(self)
        } else {
            let RcArray { data, _marker } = self;
            Ok(data)
        }
    }

    /// Returns a mutable reference to the underlying array if the caller
    /// has exclusive access, or `None` otherwise.
    pub fn to_mut<'a>(&'a mut self, heap: &Heap<E, R>) -> (r: Option<&'a mut SafeArray<E, R, P>>)
        requires
            old(self).wf(*heap),
        ensures
            match r {
                Some(arr) => {
                    &&& old(self).spec_count(*heap) <= 1
                    &&& *arr == old(self).spec_inner()
                    &&& final(self).spec_inner() == *final(arr)
                },
                None => {
                    &&& old(self).spec_count(*heap) > 1
                    &&& *final(self) == *old(self)
                },
            },
    {
        if self.data.get_label(heap).counter() > 1 {
            None
        } else {
            Some(&mut self.data)
        }
    }

    /// The number of elements in the shared block.
    pub fn len(&self, heap: &Heap<E, R>) -> (r: usize)
        requires
            self.wf(*heap),
        ensures
            r == self.spec_len(),
    {
        self.data.len(heap)
    }

    /// Returns whether the reference is null; a well-formed reference
    /// never is.
    pub fn is_null(&self) -> (r: bool)
        ensures
            r == (self.spec_addr() == NULL),
    {
        self.data.is_null()
    }

    /// Get a reference into this array.  Returns `None` if and only if the
    /// index given is out of bounds.
    pub fn get<'a>(&self, heap: &'a Heap<E, R>, key: usize) -> (r: Option<&'a E>)
        requires
            self.wf(*heap),
        ensures
            match r {
                Some(e) => key < self.spec_len() && *e == heap.elems_at(self.spec_addr())[
                    key as int],
                None => key >= self.spec_len(),
            },
    {
        self.data.get(heap, key)
    }

    /// Get a mutable reference into this array.  Returns `None` if and
    /// only if the array is referenced by another pointer or the index
    /// given is out of bounds: mutating a shared block could be observed
    /// by every other reference.
    pub fn get_mut<'a>(&self, heap: &'a mut Heap<E, R>, key: usize) -> (r: Option<&'a mut E>)
        requires
            old(heap).wf(),
            self.wf(*old(heap)),
        ensures
            final(heap).wf(),
            self.wf(*final(heap)),
            match r {
                Some(e) => {
                    &&& self.spec_count(*old(heap)) == 1
                    &&& key < self.spec_len()
                    &&& *e == old(heap).elems_at(self.spec_addr())[key as int]
                    &&& final(heap).elems_at(self.spec_addr()) == old(heap).elems_at(
                        self.spec_addr(),
                    ).update(key as int, *final(e))
                    &&& final(heap).label_at(self.spec_addr()) == old(heap).label_at(
                        self.spec_addr(),
                    )
                    &&& Heap::agrees_except(*final(heap), *old(heap), self.spec_addr())
                    &&& final(heap).addr_limit() == old(heap).addr_limit()
                    &&& final(heap).spec_info() == old(heap).spec_info()
                },
                None => {
                    &&& (self.spec_count(*old(heap)) != 1 || key >= self.spec_len())
                    &&& *final(heap) == *old(heap)
                },
            },
    {
        if self.data.get_label(heap).counter() != 1 {
            None
        } else {
            self.data.get_mut(heap, key)
        }
    }

    /// Insert an element into this array, returning the previous element.
    /// Returns `None`, and drops `value`, if and only if the array is
    /// referenced by another pointer or the index given is out of bounds.
    pub fn insert(&self, heap: &mut Heap<E, R>, key: usize, value: E) -> (r: Option<E>)
        requires
            old(heap).wf(),
            self.wf(*old(heap)),
        ensures
            final(heap).wf(),
            self.wf(*final(heap)),
            match r {
                Some(prev) => {
                    &&& self.spec_count(*old(heap)) == 1
                    &&& key < self.spec_len()
                    &&& prev == old(heap).elems_at(self.spec_addr())[key as int]
                    &&& final(heap).elems_at(self.spec_addr()) == old(heap).elems_at(
                        self.spec_addr(),
                    ).update(key as int, value)
                    &&& final(heap).label_at(self.spec_addr()) == old(heap).label_at(
                        self.spec_addr(),
                    )
                    &&& Heap::agrees_except(*final(heap), *old(heap), self.spec_addr())
                    &&& final(heap).addr_limit() == old(heap).addr_limit()
                    &&& final(heap).spec_info() == old(heap).spec_info()
                },
                None => {
                    &&& (self.spec_count(*old(heap)) != 1 || key >= self.spec_len())
                    &&& *final(heap) == *old(heap)
                },
            },
    {
        if self.data.get_label(heap).counter() != 1 {
            None
        } else {
            self.data.insert(heap, key, value)
        }
    }

    /// Get a reference to the user's label.
    pub fn get_label<'a>(&self, heap: &'a Heap<E, R>) -> (r: &'a L)
        requires
            self.wf(*heap),
        ensures
            *r == self.spec_label(*heap),
    {
        self.data.get_label(heap).get_data()
    }

    /// A reference to the element at `idx`, which the caller must prove in
    /// bounds: no runtime check is made.
    pub fn get_unchecked<'a>(&self, heap: &'a Heap<E, R>, idx: usize) -> (r: &'a E)
        requires
            self.wf(*heap),
            idx < self.spec_len(),
        ensures
            *r == heap.elems_at(self.spec_addr())[idx as int],
    {
        self.data.get_unchecked(heap, idx)
    }

    /// Returns a reference to a slice over all the shared elements.
    pub fn as_slice<'a>(&self, heap: &'a Heap<E, R>) -> (r: &'a [E])
        requires
            self.wf(*heap),
        ensures
            r@ == heap.elems_at(self.spec_addr()),
            r@.len() == self.spec_len(),
    {
        self.data.as_slice(heap)
    }

    /// The location of element `idx` as the block's address paired with
    /// the element's byte offset inside the block.  Two references alias
    /// exactly when these locations are equal.
    pub fn get_ptr(&self, heap: &Heap<E, R>, idx: usize) -> (r: (usize, usize))
        requires
            self.wf(*heap),
            idx < self.spec_len(),
        ensures
            r.0 == self.spec_addr(),
            r.1 == spec_label_pad::<E, R>() + vstd::layout::size_of::<E>() * idx,
    {
        self.data.get_ptr(heap, idx)
    }
}

impl<E, L: Clone, R: RefCounter<L>, P: SafeArrayPtr<E, R>> RcArray<E, L, R, P> where E: Clone {
    /// Returns an owned version of this array if the caller has exclusive
    /// access, or copies the shared block otherwise, giving this reference
    /// up either way.
    pub fn make_owned(self, heap: &mut Heap<E, R>) -> (r: SafeArray<E, R, P>)
        requires
            old(heap).wf(),
            self.wf(*old(heap)),
            self.spec_count(*old(heap)) >= 1,
            can_alloc_block::<E, R>(*old(heap), self.spec_len() as int),
        ensures
            final(heap).wf(),
            r.wf(*final(heap)),
            r.spec_len() == self.spec_len(),
            final(heap).label_at(r.spec_addr()).spec_counter() == 1,
            self.spec_count(*old(heap)) <= 1 ==> {
                &&& r == self.spec_inner()
                &&& *final(heap) == *old(heap)
            },
            self.spec_count(*old(heap)) > 1 ==> {
                &&& r.spec_addr() != self.spec_addr()
                &&& !old(heap).is_live(r.spec_addr())
                &&& cloned(
                    old(heap).label_at(self.spec_addr()).spec_data(),
                    final(heap).label_at(r.spec_addr()).spec_data(),
                )
                &&& forall|i: int|
                    0 <= i < self.spec_len() ==> cloned(
                        old(heap).elems_at(self.spec_addr())[i],
                        #[trigger] final(heap).elems_at(r.spec_addr())[i],
                    )
                &&& final(heap).is_live(self.spec_addr())
                &&& final(heap).label_at(self.spec_addr()).spec_counter() == self.spec_count(
                    *old(heap),
                ) - 1
                &&& final(heap).elems_at(self.spec_addr()) == old(heap).elems_at(self.spec_addr())
                &&& AllocInfo::alloc_effect(
                    old(heap).spec_info(),
                    final(heap).spec_info(),
                    spec_block_size::<E, R>(self.spec_len() as int),
                )
            },
    {
        if self.ref_count(heap) > 1 {
            let len = self.data.len(heap);
            let addr = self.data.as_raw();
            let fresh = R::new(self.data.get_label(heap).get_data().clone());
            let new_addr = copy_block_elems(heap, addr, len, fresh);
            proof {
                assert(heap.is_live(addr));
                assert(heap.block_at(addr) == old(heap).block_at(addr));
                assert(heap.size_at(addr) == old(heap).size_at(addr));
                assert(heap.align_at(addr) == old(heap).align_at(addr));
            }
            let ghost h1 = *heap;
            let counter = self.data.get_label_mut(heap);
            let _ = counter.decrement();
            proof {
                assert(heap.is_live(new_addr));
                assert(heap.block_at(new_addr) == h1.block_at(new_addr));
                assert(heap.size_at(new_addr) == h1.size_at(new_addr));
                assert(heap.align_at(new_addr) == h1.align_at(new_addr));
            }
            SafeArray::from_raw_parts(new_addr, len)
        } else {
            let RcArray { data, _marker } = self;
            data
        }
    }

    /// Make this reference the unique owner of its block: nothing happens
    /// while the caller already has exclusive access, and otherwise this
    /// reference moves to a fresh copy of the shared block and the old
    /// block's count falls by one.
    pub fn make_mut(&mut self, heap: &mut Heap<E, R>)
        requires
            old(heap).wf(),
            old(self).wf(*old(heap)),
            old(self).spec_count(*old(heap)) >= 1,
            can_alloc_block::<E, R>(*old(heap), old(self).spec_len() as int),
        ensures
            final(heap).wf(),
            final(self).wf(*final(heap)),
            final(self).spec_len() == old(self).spec_len(),
            final(self).spec_count(*final(heap)) == 1,
            old(self).spec_count(*old(heap)) <= 1 ==> {
                &&& *final(self) == *old(self)
                &&& *final(heap) == *old(heap)
            },
            old(self).spec_count(*old(heap)) > 1 ==> {
                &&& final(self).spec_addr() != old(self).spec_addr()
                &&& cloned(
                    old(heap).label_at(old(self).spec_addr()).spec_data(),
                    final(heap).label_at(final(self).spec_addr()).spec_data(),
                )
                &&& forall|i: int|
                    0 <= i < old(self).spec_len() ==> cloned(
                        old(heap).elems_at(old(self).spec_addr())[i],
                        #[trigger] final(heap).elems_at(final(self).spec_addr())[i],
                    )
                &&& final(heap).is_live(old(self).spec_addr())
                &&& final(heap).label_at(old(self).spec_addr()).spec_counter() == old(
                    self,
                ).spec_count(*old(heap)) - 1
                &&& AllocInfo::alloc_effect(
                    old(heap).spec_info(),
                    final(heap).spec_info(),
                    spec_block_size::<E, R>(old(self).spec_len() as int),
                )
            },
    {
        if self.ref_count(heap) > 1 {
            let len = self.data.len(heap);
            let addr = self.data.as_raw();
            let fresh = R::new(self.data.get_label(heap).get_data().clone());
            let new_addr = copy_block_elems(heap, addr, len, fresh);
            proof {
                assert(heap.is_live(addr));
                assert(heap.block_at(addr) == old(heap).block_at(addr));
                assert(heap.size_at(addr) == old(heap).size_at(addr));
                assert(heap.align_at(addr) == old(heap).align_at(addr));
            }
            let ghost h1 = *heap;
            let counter = self.data.get_label_mut(heap);
            let _ = counter.decrement();
            proof {
                assert(heap.is_live(new_addr));
                assert(heap.block_at(new_addr) == h1.block_at(new_addr));
                assert(heap.size_at(new_addr) == h1.size_at(new_addr));
                assert(heap.align_at(new_addr) == h1.align_at(new_addr));
            }
            self.data = SafeArray::from_raw_parts(new_addr, len);
        }
    }
}

impl<E, R: RefCounter<()>, P: SafeArrayPtr<E, R>> RcArray<E, (), R, P> {
    /// Create a new array with no label, with element `i` initialized to
    /// `func(i)`.
    pub fn new<F: Fn(usize) -> E>(heap: &mut Heap<E, R>, len: usize, func: F) -> (r: Self)
        requires
            old(heap).wf(),
            len <= spec_block_max_len::<E, R>(),
            can_alloc_block::<E, R>(*old(heap), len as int),
            forall|i: usize| i < len ==> call_requires(func, (i,)),
        ensures
            final(heap).wf(),
            r.wf(*final(heap)),
            r.spec_len() == len,
            r.spec_count(*final(heap)) == 1,
            r.spec_addr() == old(heap).addr_limit(),
            !old(heap).is_live(r.spec_addr()),
            Heap::agrees_except(*final(heap), *old(heap), r.spec_addr()),
            final(heap).addr_limit() == old(heap).addr_limit() + 1,
            forall|i: int|
                0 <= i < len ==> call_ensures(
                    func,
                    ((i as usize),),
                    #[trigger] final(heap).elems_at(r.spec_addr())[i],
                ),
            AllocInfo::alloc_effect(
                old(heap).spec_info(),
                final(heap).spec_info(),
                spec_block_size::<E, R>(len as int),
            ),
    {
        Self::with_label(heap, (), len, func)
    }
}

impl<E: Default, L, R: RefCounter<L>, P: SafeArrayPtr<E, R>> RcArray<E, L, R, P> {
    /// Create a new array with every element initialized to the element
    /// type's default value.
    pub fn with_len(heap: &mut Heap<E, R>, label: L, len: usize) -> (r: Self)
        requires
            old(heap).wf(),
            len <= spec_block_max_len::<E, R>(),
            can_alloc_block::<E, R>(*old(heap), len as int),
        ensures
            final(heap).wf(),
            r.wf(*final(heap)),
            r.spec_len() == len,
            r.spec_count(*final(heap)) == 1,
            r.spec_label(*final(heap)) == label,
            r.spec_addr() == old(heap).addr_limit(),
            !old(heap).is_live(r.spec_addr()),
            Heap::agrees_except(*final(heap), *old(heap), r.spec_addr()),
            final(heap).addr_limit() == old(heap).addr_limit() + 1,
            AllocInfo::alloc_effect(
                old(heap).spec_info(),
                final(heap).spec_info(),
                spec_block_size::<E, R>(len as int),
            ),
    {
        Self::with_label(heap, label, len, |_i: usize| E::default())
    }
}

/// Reference sharing identity: two well-formed references to the same
/// block have the same length, and at every index within bounds they point
/// at the same element location and read the very same element — they
/// alias, they do not copy.
pub proof fn lemma_reference_sharing<E, L, R: RefCounter<L>, P: SafeArrayPtr<E, R>>(
    heap: Heap<E, R>,
    first: RcArray<E, L, R, P>,
    second: RcArray<E, L, R, P>,
    i: int,
)
    requires
        first.wf(heap),
        second.wf(heap),
        first.spec_addr() == second.spec_addr(),
        0 <= i < first.spec_len(),
    ensures
        second.spec_len() == first.spec_len(),
        heap.elems_at(first.spec_addr())[i] == heap.elems_at(second.spec_addr())[i],
        first.spec_count(heap) == second.spec_count(heap),
{
}

proof fn lemma_clones_raise<E, L, R: RefCounter<L>>(
    heaps: Seq<Heap<E, R>>,
    addr: usize,
    start: int,
    k: int,
)
    requires
        0 <= start,
        0 <= k,
        start + k < heaps.len(),
        forall|i: int|
            start <= i < start + k ==> #[trigger] clone_effect::<E, L, R>(heaps[i], heaps[i + 1], addr),
        heaps[start].is_live(addr),
    ensures
        heaps[start + k].is_live(addr),
        heaps[start + k].label_at(addr).spec_counter() as int == heaps[start].label_at(
            addr,
        ).spec_counter() + k,
        heaps[start + k].spec_info() == heaps[start].spec_info(),
        heaps[start + k].elems_at(addr) == heaps[start].elems_at(addr),
    decreases k,
{
    if k > 0 {
        lemma_clones_raise::<E, L, R>(heaps, addr, start, k - 1);
        let j = start + k - 1;
        assert(clone_effect::<E, L, R>(heaps[j], heaps[j + 1], addr));
        assert(heaps[j + 1] == heaps[start + k]);
    }
}

proof fn lemma_drops_lower<E, L, R: RefCounter<L>>(
    heaps: Seq<Heap<E, R>>,
    addr: usize,
    len: int,
    start: int,
    k: int,
)
    requires
        0 <= start,
        0 <= k,
        start + k < heaps.len(),
        forall|i: int|
            start <= i < start + k ==> #[trigger] drop_effect::<E, L, R>(heaps[i], heaps[i + 1], addr, len),
        heaps[start].is_live(addr),
        heaps[start].label_at(addr).spec_counter() > k,
    ensures
        heaps[start + k].is_live(addr),
        heaps[start + k].label_at(addr).spec_counter() as int == heaps[start].label_at(
            addr,
        ).spec_counter() - k,
        heaps[start + k].spec_info() == heaps[start].spec_info(),
        heaps[start + k].elems_at(addr) == heaps[start].elems_at(addr),
    decreases k,
{
    if k > 0 {
        lemma_drops_lower::<E, L, R>(heaps, addr, len, start, k - 1);
        let j = start + k - 1;
        assert(drop_effect::<E, L, R>(heaps[j], heaps[j + 1], addr, len));
        assert(heaps[j + 1] == heaps[start + k]);
    }
}

/// Counter lifecycle: starting from a single reference, cloning it `n`
/// times and then dropping `n` of the references leaves the count at one
/// again, with not a byte allocated or freed along the way; the final drop
/// then destroys the block and releases exactly its bytes, so the whole
/// round nets to zero bytes held.
pub proof fn lemma_counter_lifecycle<E, L, R: RefCounter<L>>(
    heaps: Seq<Heap<E, R>>,
    addr: usize,
    len: int,
    n: int,
)
    requires
        n >= 0,
        heaps.len() == 2 * n + 2,
        heaps[0].is_live(addr),
        heaps[0].label_at(addr).spec_counter() == 1,
        forall|i: int| 0 <= i < n ==> #[trigger] clone_effect::<E, L, R>(heaps[i], heaps[i + 1], addr),
        forall|i: int|
            n <= i < 2 * n + 1 ==> #[trigger] drop_effect::<E, L, R>(heaps[i], heaps[i + 1], addr, len),
    ensures
        heaps[2 * n].is_live(addr),
        heaps[2 * n].label_at(addr).spec_counter() == 1,
        heaps[2 * n].spec_info() == heaps[0].spec_info(),
        !heaps[2 * n + 1].is_live(addr),
        AllocInfo::dealloc_effect(
            heaps[0].spec_info(),
            heaps[2 * n + 1].spec_info(),
            spec_block_size::<E, R>(len),
        ),
{
    lemma_clones_raise::<E, L, R>(heaps, addr, 0, n);
    lemma_drops_lower::<E, L, R>(heaps, addr, len, n, n);
    let j = 2 * n;
    assert(drop_effect::<E, L, R>(heaps[j], heaps[j + 1], addr, len));
    assert(heaps[j + 1] == heaps[2 * n + 1]);
}


impl<E, L, R: RefCounter<L>, P: SafeArrayPtr<E, R>> crate::traits::BaseArrayRef for RcArray<
    E,
    L,
    R,
    P,
> {
    open spec fn ref_addr(&self) -> usize {
        self.spec_addr()
    }

    fn is_null(&self) -> (r: bool) {
        RcArray::is_null(self)
    }
}

impl<E, L, R: RefCounter<L>, P: SafeArrayPtr<E, R>> crate::traits::LabelledArray<E, R, L> for RcArray<
    E,
    L,
    R,
    P,
> {
    open spec fn wf_in(&self, heap: Heap<E, R>) -> bool {
        self.wf(heap)
    }

    open spec fn len_of(&self) -> usize {
        self.spec_len()
    }

    /// A shared array may be written through only while exactly one
    /// reference holds it.
    open spec fn may_write(&self, heap: Heap<E, R>) -> bool {
        self.spec_count(heap) == 1
    }

    open spec fn label_of(&self, heap: Heap<E, R>) -> L {
        self.spec_label(heap)
    }

    fn with_label<F: Fn(usize) -> E>(
        heap: &mut Heap<E, R>,
        label: L,
        len: usize,
        func: F,
    ) -> (r: Self) {
        RcArray::with_label(heap, label, len, func)
    }

    fn len(&self, heap: &Heap<E, R>) -> (r: usize) {
        RcArray::len(self, heap)
    }

    fn get<'a>(&self, heap: &'a Heap<E, R>, key: usize) -> (r: Option<&'a E>) {
        RcArray::get(self, heap, key)
    }

    fn get_mut<'a>(&self, heap: &'a mut Heap<E, R>, key: usize) -> (r: Option<&'a mut E>) {
        RcArray::get_mut(self, heap, key)
    }

    fn insert(&self, heap: &mut Heap<E, R>, key: usize, value: E) -> (r: Option<E>) {
        RcArray::insert(self, heap, key, value)
    }

    fn get_label<'a>(&self, heap: &'a Heap<E, R>) -> (r: &'a L) {
        RcArray::get_label(self, heap)
    }

    fn get_unchecked<'a>(&self, heap: &'a Heap<E, R>, idx: usize) -> (r: &'a E) {
        RcArray::get_unchecked(self, heap, idx)
    }
}

impl<E, R: RefCounter<()>, P: SafeArrayPtr<E, R>> crate::traits::MakeArray<E, R> for RcArray<
    E,
    (),
    R,
    P,
> {
    fn new<F: Fn(usize) -> E>(heap: &mut Heap<E, R>, len: usize, func: F) -> (r: Self) {
        RcArray::new(heap, len, func)
    }
}

impl<E: Default, L, R: RefCounter<L>, P: SafeArrayPtr<E, R>> crate::traits::DefaultLabelledArray<
    E,
    R,
    L,
> for RcArray<E, L, R, P> {
    fn with_len(heap: &mut Heap<E, R>, label: L, len: usize) -> (r: Self) {
        RcArray::with_len(heap, label, len)
    }
}

impl<E, L, R: RefCounter<L>, P: SafeArrayPtr<E, R>> crate::traits::SliceArray<E, R, L> for RcArray<
    E,
    L,
    R,
    P,
> {
    fn as_slice<'a>(&self, heap: &'a Heap<E, R>) -> (r: &'a [E]) {
        RcArray::as_slice(self, heap)
    }
}

impl<E, L, R: RefCounter<L>, P: SafeArrayPtr<E, R>> crate::traits::ArrayRef<E, R, L> for RcArray<
    E,
    L,
    R,
    P,
> {
    open spec fn count_of(&self, heap: Heap<E, R>) -> usize {
        self.spec_count(heap)
    }

    fn clone(ptr: &Self, heap: &mut Heap<E, R>) -> (r: Self) {
        RcArray::clone(ptr, heap)
    }
}

} // verus!
