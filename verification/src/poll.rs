//! What a poll of an input/output operation comes back with.

use vstd::prelude::*;

verus! {

/// The outcome of polling one operation of an inner stream.
#[derive(Debug, PartialEq, Eq)]
pub enum IoPoll<T, E> {
    /// The operation cannot make progress yet.
    Pending,
    /// The operation has completed.
    Ready(T),
    /// The operation has failed.
    Failed(E),
}

} // verus!
