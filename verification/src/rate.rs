//! A shared cell for a rate from 0 to 1.

use crate::binary64::{clamp_to_unit_interval, is_in_unit_interval};
use crate::cell::{load_u64, new_u64_cell, store_u64};
use std::sync::atomic::AtomicU64;
use vstd::prelude::*;

verus! {

/// The number as it is if it lies between 0 and 1, else the nearest one that does.
spec fn into_range(bits: u64) -> u64 {
    if crate::binary64::in_unit_interval(bits) {
        bits
    } else {
        crate::binary64::clamp_spec(bits)
    }
}

/// A cell that only takes rates from 0 to 1 and only gives out rates from 0 to 1.
#[derive(Debug)]
pub(crate) struct RateCell {
    bits: AtomicU64,
}

impl RateCell {
    /// The bits of the rates that a read can return: those that the cell holds at one time or
    /// another.
    pub(crate) closed spec fn rates(&self) -> Set<u64> {
        Set::new(
            |rate: u64|
                exists|bits: u64| #[trigger]
                    crate::cell::u64_cell_values(self.bits).contains(bits) && rate == into_range(
                        bits,
                    ),
        )
    }

    /// Creates a cell that starts out at the rate with these bits.
    pub(crate) fn new(bits: u64) -> (cell: Self)
        requires
            crate::binary64::in_unit_interval(bits),
        ensures
            cell.rates().contains(bits),
    {
        Self { bits: new_u64_cell(bits) }
    }

    /// Stores the rate with these bits.
    pub(crate) fn store(&self, bits: u64)
        requires
            crate::binary64::in_unit_interval(bits),
        ensures
            self.rates().contains(bits),
    {
        let _ = store_u64(&self.bits, bits);
    }

    /// Reads the cell.
    pub(crate) fn load(&self) -> (rate: u64)
        ensures
            self.rates().contains(rate),
            crate::binary64::in_unit_interval(rate),
    {
        let bits: u64 = load_u64(&self.bits);
        if is_in_unit_interval(bits) {
            bits
        } else {
            clamp_to_unit_interval(bits)
        }
    }

    /// No read can return anything but a rate from 0 to 1.
    pub(crate) proof fn lemma_rates_in_range(&self, rate: u64)
        requires
            self.rates().contains(rate),
        ensures
            crate::binary64::in_unit_interval(rate),
    {
        crate::binary64::lemma_zero_and_one();
    }
}

/// What a cell may give out is what it holds, brought into the range from 0 to 1.
proof fn lemma_rates_are_held_by_the_cell(cell: RateCell, rate: u64)
    requires
        cell.rates().contains(rate),
    ensures
        exists|bits: u64| #[trigger]
            crate::cell::u64_cell_values(cell.bits).contains(bits) && (rate == bits
                || !crate::binary64::in_unit_interval(bits)),
{
}

} // verus!
