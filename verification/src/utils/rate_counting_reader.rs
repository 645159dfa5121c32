//! Throughput accounting for readers.
//!
//! [`RateCountingReader`] wraps a reader and adds up the bytes read, along with the time of the
//! first of them, for a simple average rate.

use crate::clock::now;
use crate::poll::IoPoll;
use std::time::Instant;
use vstd::prelude::*;

verus! {

/// Counts the bytes that are read from a stream.
///
/// - The timer starts only after the **first non-zero** read.
/// - `reset()` clears the count and the start time.
/// - Accessors expose the wrapped stream for inspection or reuse.
#[derive(Debug)]
pub struct RateCountingReader<T> {
    inner: T,
    total_bytes: u64,
    start: Option<Instant>,
}

/// How many bytes a read added to a buffer that held `before` bytes and then `after`.
pub open spec fn bytes_added(before: usize, after: usize) -> nat {
    if after > before {
        (after - before) as nat
    } else {
        0
    }
}

/// A count that stays at the largest number once it would pass it.
pub open spec fn saturating_total(total: u64, added: nat) -> u64 {
    if total + added <= u64::MAX {
        (total + added) as u64
    } else {
        u64::MAX
    }
}

impl<T> RateCountingReader<T> {
    /// The wrapped stream.
    pub closed spec fn inner(&self) -> T {
        self.inner
    }

    /// The bytes counted.
    pub closed spec fn counted(&self) -> u64 {
        self.total_bytes
    }

    /// When the first byte was read.
    pub closed spec fn started(&self) -> Option<Instant> {
        self.start
    }

    /// The timer has been started if and only if a byte has been counted.
    pub open spec fn timed(&self) -> bool {
        self.started() is Some <==> self.counted() > 0
    }

    /// Wraps `inner` and counts what is read from it from now on.
    pub fn new(inner: T) -> (reader: Self)
        ensures
            reader.inner() == inner,
            reader.counted() == 0,
            reader.started() is None,
            reader.timed(),
    {
        Self { inner, total_bytes: 0, start: None }
    }

    /// Total bytes read so far (saturating).
    pub fn total(&self) -> (total: u64)
        ensures
            total == self.counted(),
    {
        self.total_bytes
    }

    /// When the first non-zero read happened.
    pub fn start_instant(&self) -> (start: Option<Instant>)
        ensures
            start == self.started(),
    {
        self.start
    }

    /// Clears the count and the start time.
    pub fn reset(&mut self)
        ensures
            final(self).counted() == 0,
            final(self).started() is None,
            final(self).timed(),
            final(self).inner() == old(self).inner(),
    {
        self.total_bytes = 0;
        self.start = None;
    }

    /// Access to the wrapped stream.
    pub fn get_ref(&self) -> (inner: &T)
        ensures
            *inner == self.inner(),
    {
        &self.inner
    }

    /// Mutable access to the wrapped stream.
    pub fn get_mut(&mut self) -> (inner: &mut T)
        ensures
            *inner == old(self).inner(),
            final(self).inner() == *final(inner),
            final(self).counted() == old(self).counted(),
            final(self).started() == old(self).started(),
    {
        &mut self.inner
    }

    /// Consumes the wrapper and returns the wrapped stream.
    pub fn into_inner(self) -> (inner: T)
        ensures
            inner == self.inner(),
    {
        self.inner
    }

    /// Counts a completed read that took a buffer from `before` filled bytes to `after`.
    ///
    /// Returns whether the timer is to be started: the read brought the first bytes.
    pub fn count(&mut self, before: usize, after: usize) -> (first: bool)
        ensures
            final(self).counted() == saturating_total(
                old(self).counted(),
                bytes_added(before, after),
            ),
            final(self).started() == old(self).started(),
            final(self).inner() == old(self).inner(),
            first == (after > before && old(self).started() is None),
            after <= before ==> final(self).counted() == old(self).counted(),
            after > before && old(self).counted() + (after - before) <= u64::MAX ==> final(
                self
            ).counted() == old(self).counted() + (after - before),
            after > before && old(self).counted() + (after - before) > u64::MAX ==> final(
                self
            ).counted() == u64::MAX,
    {
        let added: u64 = after.saturating_sub(before) as u64;
        if added > 0 {
            self.total_bytes = self.total_bytes.saturating_add(added);
            return self.start.is_none();
        }
        false
    }

    /// Starts the timer at `instant`.
    pub fn start_at(&mut self, instant: Instant)
        ensures
            final(self).started() == Some(instant),
            final(self).counted() == old(self).counted(),
            final(self).inner() == old(self).inner(),
    {
        self.start = Some(instant);
    }

    /// Takes what a read of the wrapped stream came back with, which took the buffer from `before`
    /// filled bytes to `after`, and returns it. A read that has not completed is not counted.
    pub fn after_read<E>(&mut self, before: usize, after: usize, reply: IoPoll<(), E>) -> (result:
        IoPoll<(), E>)
        ensures
            result == reply,
            final(self).inner() == old(self).inner(),
            old(self).timed() ==> final(self).timed(),
            if reply is Ready {
                &&& final(self).counted() == saturating_total(
                    old(self).counted(),
                    bytes_added(before, after),
                )
                &&& after <= before ==> final(self).counted() == old(self).counted()
                &&& after > before && old(self).counted() + (after - before) <= u64::MAX ==> final(
                    self
                ).counted() == old(self).counted() + (after - before)
                &&& after > before && old(self).counted() + (after - before) > u64::MAX ==> final(
                    self
                ).counted() == u64::MAX
                &&& old(self).started() is Some ==> final(self).started() == old(self).started()
                &&& old(self).started() is None ==> (final(self).started() is Some <==> after
                    > before)
            } else {
                &&& final(self).counted() == old(self).counted()
                &&& final(self).started() == old(self).started()
            },
    {
        if let IoPoll::Ready(()) = reply {
            if self.count(before, after) {
                self.start_at(now());
            }
        }
        reply
    }
}

/// The count after completed reads that added so many bytes each, from a count of `total`.
pub open spec fn total_after(total: u64, reads: Seq<nat>) -> u64
    decreases reads.len(),
{
    if reads.len() == 0 {
        total
    } else {
        total_after(saturating_total(total, reads[0]), reads.drop_first())
    }
}

/// The sum of the bytes of the reads.
pub open spec fn sum_of(reads: Seq<nat>) -> nat
    decreases reads.len(),
{
    if reads.len() == 0 {
        0
    } else {
        reads[0] + sum_of(reads.drop_first())
    }
}

/// However the bytes are split over reads, the count is their sum, or the largest number once the
/// sum passes it.
pub proof fn law_total_is_the_sum_of_the_reads(total: u64, reads: Seq<nat>)
    ensures
        total_after(total, reads) == saturating_total(total, sum_of(reads)),
    decreases reads.len(),
{
    if reads.len() > 0 {
        law_total_is_the_sum_of_the_reads(saturating_total(total, reads[0]), reads.drop_first());
    }
}

/// The count after some reads is what was counted before and what they brought, or the largest
/// number if that is more than it can hold.
pub proof fn law_every_byte_is_counted(total: u64, reads: Seq<nat>)
    ensures
        total + sum_of(reads) <= u64::MAX ==> total_after(total, reads) == total + sum_of(reads),
        total + sum_of(reads) > u64::MAX ==> total_after(total, reads) == u64::MAX,
{
    law_total_is_the_sum_of_the_reads(total, reads);
}

/// A read brings as many bytes as the buffer holds more than before.
pub proof fn law_bytes_added_fill_the_buffer(before: usize, after: usize)
    ensures
        after >= before ==> before + bytes_added(before, after) == after,
        after < before ==> bytes_added(before, after) == 0,
{
}

} // verus!
