//! Utility structs for reference counting.
//!
//! A reference counter wraps the user's label and keeps the count of live
//! references beside it, so the reference-counted array types can share one
//! implementation of the counting rules.
//!
//! The two counters differ in how they update: [`RcStruct`] stands for a
//! plain mutable cell for single-threaded use, [`ArcStruct`] for atomic
//! read-modify-write operations through which references on different
//! threads count in parallel.  In this sequential model both update in
//! place through `&mut`, and each update is one indivisible step.

use vstd::prelude::*;

verus! {

/// Utility trait that handles reference counting.
///
/// A counter starts at one when made, moves up by exactly one per clone of
/// a reference and down by exactly one per dropped reference, and carries
/// the wrapped data unchanged through every count update.
pub trait RefCounter<T>: Sized {
    /// The current reference count.
    spec fn spec_counter(&self) -> usize;

    /// The data this counter wraps.
    spec fn spec_data(&self) -> T;

    /// Returns a new instance of this reference counter, counting one
    /// reference.
    fn new(data: T) -> (r: Self)
        ensures
            r.spec_counter() == 1,
            r.spec_data() == data,
    ;

    /// Decrements the reference counter by one and returns its new value.
    fn decrement(&mut self) -> (r: usize)
        requires
            old(self).spec_counter() > 0,
        ensures
            r == old(self).spec_counter() - 1,
            final(self).spec_counter() == r,
            final(self).spec_data() == old(self).spec_data(),
    ;

    /// Increments the reference counter by one and returns its new value.
    /// Counting past the machine word would lose references, so the caller
    /// keeps the count below that.
    fn increment(&mut self) -> (r: usize)
        requires
            old(self).spec_counter() < usize::MAX,
        ensures
            r == old(self).spec_counter() + 1,
            final(self).spec_counter() == r,
            final(self).spec_data() == old(self).spec_data(),
    ;

    /// Returns the reference count associated with this struct.
    fn counter(&self) -> (r: usize)
        ensures
            r == self.spec_counter(),
    ;

    /// Returns a reference to the data associated with this struct.
    fn get_data(&self) -> (r: &T)
        ensures
            *r == self.spec_data(),
    ;

    /// Returns a mutable reference to the data associated with this
    /// struct.  The count does not move, whatever is written through it.
    fn get_data_mut(&mut self) -> (r: &mut T)
        ensures
            *r == old(self).spec_data(),
            final(self).spec_data() == *final(r),
            final(self).spec_counter() == old(self).spec_counter(),
    ;
}

/// Reference counting struct for non-atomic reference counts, for
/// references that stay on one thread.
pub struct RcStruct<T> {
    counter: usize,
    /// The wrapped label data.
    pub data: T,
}

impl<T> RefCounter<T> for RcStruct<T> {
    closed spec fn spec_counter(&self) -> usize {
        self.counter
    }

    closed spec fn spec_data(&self) -> T {
        self.data
    }

    fn new(data: T) -> (r: Self) {
        RcStruct { counter: 1, data }
    }

    fn decrement(&mut self) -> (r: usize) {
        self.counter = self.counter - 1;
        self.counter
    }

    fn increment(&mut self) -> (r: usize) {
        self.counter = self.counter + 1;
        self.counter
    }

    fn counter(&self) -> (r: usize) {
        self.counter
    }

    fn get_data(&self) -> (r: &T) {
        &self.data
    }

    fn get_data_mut(&mut self) -> (r: &mut T) {
        &mut self.data
    }
}

/// Reference counting struct for atomic reference counts, for references
/// shared across threads.  An increment needs only enough ordering to keep
/// the counter itself whole; a decrement must synchronize with the
/// destructive read that follows the count reaching zero, so that the
/// thread that frees the block sees every write made by the other
/// reference holders first.  In this sequential model each update is one
/// indivisible step, which subsumes both orderings.
pub struct ArcStruct<T> {
    ref_count: usize,
    /// The wrapped label data.
    pub data: T,
}

impl<T> RefCounter<T> for ArcStruct<T> {
    closed spec fn spec_counter(&self) -> usize {
        self.ref_count
    }

    closed spec fn spec_data(&self) -> T {
        self.data
    }

    fn new(data: T) -> (r: Self) {
        ArcStruct { ref_count: 1, data }
    }

    fn decrement(&mut self) -> (r: usize) {
        self.ref_count = self.ref_count - 1;
        self.ref_count
    }

    fn increment(&mut self) -> (r: usize) {
        self.ref_count = self.ref_count + 1;
        self.ref_count
    }

    fn counter(&self) -> (r: usize) {
        self.ref_count
    }

    fn get_data(&self) -> (r: &T) {
        &self.data
    }

    fn get_data_mut(&mut self) -> (r: &mut T) {
        &mut self.data
    }
}

} // verus!
