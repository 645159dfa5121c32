//! Throughput knob.

use crate::cell::{load_usize, new_usize_cell, store_usize};
use std::sync::atomic::AtomicUsize;
use std::sync::Arc;
use vstd::prelude::*;

verus! {

/// Lock-free, shareable throughput limit in bytes per second.
///
/// Every holder of the handle sees an update. A rate of **`0`** means no limit.
#[derive(Debug)]
pub struct DynamicRate {
    rate: AtomicUsize,
}

impl DynamicRate {
    /// The rates that the knob is set to at one time or another.
    pub closed spec fn rates(&self) -> Set<usize> {
        crate::cell::usize_cell_values(self.rate)
    }

    /// Creates a knob that starts out at `rate`.
    pub fn new(rate: usize) -> (knob: Arc<Self>)
        ensures
            knob.rates().contains(rate),
    {
        Arc::new(Self { rate: new_usize_cell(rate) })
    }

    /// Updates the limit seen by all users of this handle.
    pub fn set(&self, rate: usize)
        ensures
            self.rates().contains(rate),
    {
        let _ = store_usize(&self.rate, rate);
    }

    /// Returns the current limit.
    pub fn rate(&self) -> (rate: usize)
        ensures
            self.rates().contains(rate),
    {
        load_usize(&self.rate)
    }
}

/// A knob that is only ever set to one rate reports that rate.
pub proof fn law_rate_reads_back(knob: DynamicRate, rate: usize, read: usize)
    requires
        forall|other: usize| #[trigger] knob.rates().contains(other) ==> other == rate,
        knob.rates().contains(read),
    ensures
        read == rate,
{
}

/// What a knob may report is what its cell holds.
proof fn lemma_rates_are_held_by_the_cell(knob: DynamicRate, rate: usize)
    ensures
        knob.rates().contains(rate) <==> crate::cell::usize_cell_values(knob.rate).contains(rate),
{
}

} // verus!
