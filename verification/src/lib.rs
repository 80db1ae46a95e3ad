//! Flexible-array-member style memory blocks, verified.
//!
//! A single heap block holds one *label* value followed by a run of
//! *element* values whose count is fixed at allocation time.  The crate
//! provides the layout arithmetic for such blocks, pointer representations
//! (owning non-null, raw unchecked, atomically swapped cell) behind one
//! interface, safe array wrappers with one-word and two-word references,
//! and a naive reference-counting layer with atomic compare-and-swap
//! pointer replacement on top.
//!
//! Every block lives in an explicit allocator, [`mem_block::Heap`], which
//! stands for the process-wide allocator: it issues addresses, keeps the
//! exact layout each block was allocated with, and accounts for every byte
//! allocated and deallocated.  Each operation takes the heap it works in as
//! a parameter, and destruction is an explicit call that states how many
//! elements are valid — so the contracts cover exactly when storage is
//! released, what every reference reads, and that a construction followed
//! by a destruction nets to zero bytes held.

pub mod alloc_utils;
pub mod mem_block;
pub mod ptr_utils;
pub mod base;
pub mod generic;
pub mod p_types;
pub mod atomic;
pub mod ref_counters;
pub mod naive_rc;
pub mod api;
pub mod traits;
pub mod test_utils;
