//! Element and label types of three sizes, for exercising the arrays with
//! payloads that are trivially copyable, word-sized, and heap-owning.

use vstd::prelude::*;

verus! {

/// A handy array length for small workouts.
pub const LENGTH: usize = 10;

/// The element payload used by the heavier workouts.
pub type Load = Large;

/// The label payload used by the heavier workouts.
pub type LabelLoad = Large;

/// A one-byte payload.
#[derive(Clone, Copy, Debug, Default, PartialEq, Eq)]
pub struct Light {
    _data: u8,
}

/// A payload of a few plain words.
#[derive(Clone, Copy, Debug, Default, PartialEq, Eq)]
pub struct Medium {
    /// A word-sized part.
    pub a: usize,
    /// A half-word part.
    pub b: u32,
    /// Another half-word part.
    pub c: u32,
}

/// A payload that owns heap storage of its own, so destructor and
/// allocation behavior show up in the accounting.
#[derive(Clone, Debug, PartialEq, Eq)]
pub struct Large {
    /// The owned storage.
    pub a: Vec<u8>,
}

impl Default for Large {
    /// An empty payload with room for a hundred bytes.
    fn default() -> (r: Self)
        ensures
            r.a@.len() == 0,
    {
        Large { a: Vec::with_capacity(100) }
    }
}

} // verus!
