//! Shared atomic cells.
//!
//! A cell is read and written by several threads through shared references, so the value that one
//! read returns depends on who wrote last. What does hold of every read is that it returns a value
//! that the cell was made with or that somebody stored. The two names below stand for the values
//! that a cell holds at one time or another, from its creation to its end.

use std::sync::atomic::{AtomicU64, AtomicUsize, Ordering};
use vstd::prelude::*;

verus! {

/// The values that a `usize` cell holds at one time or another.
pub uninterp spec fn usize_cell_values(cell: AtomicUsize) -> Set<usize>;

/// The values that a `u64` cell holds at one time or another.
pub uninterp spec fn u64_cell_values(cell: AtomicU64) -> Set<u64>;

/// `AtomicUsize::new`: the cell starts out holding `value`.
#[verifier::external_body]
pub(crate) fn new_usize_cell(value: usize) -> (cell: AtomicUsize)
    ensures
        usize_cell_values(cell).contains(value),
{
    AtomicUsize::new(value)
}

/// `AtomicUsize::load` with `Acquire` ordering: the value read is one that the cell holds.
#[verifier::external_body]
pub(crate) fn load_usize(cell: &AtomicUsize) -> (value: usize)
    ensures
        usize_cell_values(*cell).contains(value),
{
    cell.load(Ordering::Acquire)
}

/// `AtomicUsize::store` with `Release` ordering: the cell holds `value`, which is handed back.
#[verifier::external_body]
pub(crate) fn store_usize(cell: &AtomicUsize, value: usize) -> (stored: usize)
    ensures
        stored == value,
        usize_cell_values(*cell).contains(stored),
{
    cell.store(value, Ordering::Release);
    value
}

/// `AtomicU64::new`: the cell starts out holding `value`.
#[verifier::external_body]
pub(crate) fn new_u64_cell(value: u64) -> (cell: AtomicU64)
    ensures
        u64_cell_values(cell).contains(value),
{
    AtomicU64::new(value)
}

/// `AtomicU64::load` with `Acquire` ordering: the value read is one that the cell holds.
#[verifier::external_body]
pub(crate) fn load_u64(cell: &AtomicU64) -> (value: u64)
    ensures
        u64_cell_values(*cell).contains(value),
{
    cell.load(Ordering::Acquire)
}

/// `AtomicU64::store` with `Release` ordering: the cell holds `value`, which is handed back.
#[verifier::external_body]
pub(crate) fn store_u64(cell: &AtomicU64, value: u64) -> (stored: u64)
    ensures
        stored == value,
        u64_cell_values(*cell).contains(stored),
{
    cell.store(value, Ordering::Release);
    value
}

} // verus!
