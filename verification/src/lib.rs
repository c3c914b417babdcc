//! A dense, growable slab: constant-time insertion, removal by position and
//! random access, at the price of not keeping the elements in order.
//!
//! [`slab::Slab`] keeps its elements packed in the first `len` of `capacity`
//! slots. Inserting fills the next free slot and doubles the capacity when
//! none is left; removing moves the last element into the gap. The offset
//! that `insert` returns therefore names an element only until a later
//! removal moves it.

pub mod error;
pub mod iter;
pub mod laws;
pub mod slab;

pub use crate::error::SlabError;
pub use crate::iter::SlabIter;
pub use crate::iter::SlabMutIter;
pub use crate::slab::Slab;
