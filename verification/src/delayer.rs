//! Delay adapters.
//!
//! - [`DelayedReader`] delays the **first byte of each buffered burst**, whether it is read or
//!   seen in the buffer. Reads within the same burst are not delayed again.
//! - [`DelayedWriter`] delays **every write**, and the shutdown.
//!
//! Both adapters gate progress through a small timer state machine, [`Delay`]. They decide, and
//! the caller arms and polls the timer and performs the operations on the inner stream. A delay of
//! zero takes a fast path that arms no timer.

use crate::cell::{load_u64, new_u64_cell, store_u64};
use crate::poll::IoPoll;
use std::sync::atomic::AtomicU64;
use std::sync::Arc;
use std::time;
use vstd::prelude::*;
use vstd::slice::slice_subrange;

verus! {

/// A provider of delay values.
///
/// Pass a plain `std::time::Duration` for a fixed delay, or an `Arc<DynamicDuration>` for one that
/// can be changed while adapters use it. A delay of zero means "disabled".
pub trait Duration {
    /// Whether a read of the delay can return one of so many nanoseconds.
    spec fn may_report(&self, nanos: nat) -> bool;

    /// Returns the current delay.
    fn duration(&self) -> (duration: time::Duration)
        ensures
            self.may_report(crate::clock::duration_nanos(duration)),
    ;
}

impl Duration for time::Duration {
    open spec fn may_report(&self, nanos: nat) -> bool {
        nanos == crate::clock::duration_nanos(*self)
    }

    fn duration(&self) -> (duration: time::Duration)
        ensures
            duration == *self,
    {
        *self
    }
}

/// Lock-free, shareable delay knob that holds a number of nanoseconds.
///
/// Every holder of the handle sees an update. Delays are truncated to 64 bits of nanoseconds.
#[derive(Debug)]
pub struct DynamicDuration {
    duration: AtomicU64,
}

/// The nanoseconds of a delay as far as the knob can hold them: the lowest 64 bits.
pub open spec fn truncated_nanos(nanos: nat) -> u64 {
    (nanos % 0x1_0000_0000_0000_0000) as u64
}

/// The lowest 64 bits of a delay in nanoseconds.
fn low_nanos(duration: &time::Duration) -> (nanos: u64)
    ensures
        nanos == truncated_nanos(crate::clock::duration_nanos(*duration)),
{
    let all: u128 = duration.as_nanos();
    let low: u64 = #[verifier::truncate]
    (all as u64);
    assert(low == all % 0x1_0000_0000_0000_0000u128) by (bit_vector)
        requires
            low == all as u64,
    ;
    low
}

impl DynamicDuration {
    /// The delays, in nanoseconds, that the knob is set to at one time or another.
    pub closed spec fn delays(&self) -> Set<u64> {
        crate::cell::u64_cell_values(self.duration)
    }

    /// Creates a knob that starts out at `duration`.
    pub fn new(duration: time::Duration) -> (knob: Arc<Self>)
        ensures
            knob.delays().contains(truncated_nanos(crate::clock::duration_nanos(duration))),
            knob.delays().contains(
                (crate::clock::duration_nanos(duration) % 0x1_0000_0000_0000_0000) as u64,
            ),
    {
        let nanos: u64 = low_nanos(&duration);
        Arc::new(Self { duration: new_u64_cell(nanos) })
    }

    /// Sets the delay to `duration`.
    ///
    /// A delay of zero disables the delay.
    pub fn set(&self, duration: time::Duration)
        ensures
            self.delays().contains(truncated_nanos(crate::clock::duration_nanos(duration))),
            self.delays().contains(
                (crate::clock::duration_nanos(duration) % 0x1_0000_0000_0000_0000) as u64,
            ),
    {
        let nanos: u64 = low_nanos(&duration);
        let _ = store_u64(&self.duration, nanos);
    }
}

impl Default for DynamicDuration {
    /// A knob that starts out disabled.
    fn default() -> (knob: Self)
        ensures
            knob.delays().contains(0),
    {
        Self { duration: new_u64_cell(0) }
    }
}

impl Duration for DynamicDuration {
    open spec fn may_report(&self, nanos: nat) -> bool {
        nanos <= u64::MAX && self.delays().contains(nanos as u64)
    }

    fn duration(&self) -> (duration: time::Duration)
        ensures
            crate::clock::duration_nanos(duration) <= u64::MAX,
            self.delays().contains(crate::clock::duration_nanos(duration) as u64),
    {
        time::Duration::from_nanos(load_u64(&self.duration))
    }
}

impl Duration for Arc<DynamicDuration> {
    open spec fn may_report(&self, nanos: nat) -> bool {
        nanos <= u64::MAX && self.delays().contains(nanos as u64)
    }

    fn duration(&self) -> (duration: time::Duration)
        ensures
            crate::clock::duration_nanos(duration) <= u64::MAX,
            self.delays().contains(crate::clock::duration_nanos(duration) as u64),
    {
        time::Duration::from_nanos(load_u64(&self.duration))
    }
}

/// On which side of the delay an operation stands.
#[derive(Debug, Clone, Copy, PartialEq, Eq, Structural)]
pub enum Action {
    /// No timer has run for the operation yet.
    BeforeDelay,
    /// The timer of the operation has just fired.
    AfterDelay,
}

/// Whether a timer is running.
#[derive(Debug, Clone, Copy, PartialEq, Eq, Structural)]
pub enum State {
    /// No timer is running.
    Idle,
    /// A timer has been armed and has not fired yet.
    Delayed,
}

/// The sleep state machine of the adapters.
///
/// A timer is armed only for a delay that is not zero, and only the firing of the timer leads from
/// [`State::Delayed`] back to [`State::Idle`].
#[derive(Debug)]
pub struct Delay<D> {
    state: State,
    delay_duration: D,
}

/// What a poll of the state machine finds, where `fired` tells whether the timer has fired.
pub open spec fn delay_poll(state: State, fired: bool) -> Option<Action> {
    match state {
        State::Idle => Some(Action::BeforeDelay),
        State::Delayed => if fired {
            Some(Action::AfterDelay)
        } else {
            None
        },
    }
}

/// The state that a poll of the state machine leaves.
pub open spec fn state_after_poll(state: State, fired: bool) -> State {
    if fired {
        State::Idle
    } else {
        state
    }
}

impl<D> Delay<D> {
    /// Whether a timer is running.
    pub closed spec fn state(&self) -> State {
        self.state
    }

    /// The provider of the delay.
    pub closed spec fn provider(&self) -> D {
        self.delay_duration
    }

    /// Creates a state machine with no timer running.
    pub fn new(delay_duration: D) -> (delay: Self)
        ensures
            delay.state() == State::Idle,
            delay.provider() == delay_duration,
    {
        Self { state: State::Idle, delay_duration }
    }

    /// Whether a timer is running, which has then to be polled.
    pub fn is_delayed(&self) -> (delayed: bool)
        ensures
            delayed == (self.state() == State::Delayed),
    {
        match self.state {
            State::Idle => false,
            State::Delayed => true,
        }
    }

    /// Polls the state machine. `fired` tells whether the running timer has fired; without a
    /// running timer it is not looked at.
    ///
    /// Returns `None` for as long as the timer runs.
    pub fn poll(&mut self, fired: bool) -> (action: Option<Action>)
        ensures
            action == delay_poll(old(self).state(), fired),
            final(self).state() == state_after_poll(old(self).state(), fired),
            match old(self).state() {
                State::Idle => action == Some(Action::BeforeDelay) && final(self).state()
                    == State::Idle,
                State::Delayed => if fired {
                    action == Some(Action::AfterDelay) && final(self).state() == State::Idle
                } else {
                    action is None && final(self).state() == State::Delayed
                },
            },
            final(self).provider() == old(self).provider(),
    {
        match self.state {
            State::Idle => Some(Action::BeforeDelay),
            State::Delayed => {
                if !fired {
                    return None;
                }
                self.state = State::Idle;
                Some(Action::AfterDelay)
            },
        }
    }

    /// Starts a delay of `duration`, unless that is zero. Returns the time to arm the timer for.
    pub fn delay_for(&mut self, duration: time::Duration) -> (timer: Option<time::Duration>)
        requires
            old(self).state() == State::Idle,
        ensures
            if crate::clock::duration_nanos(duration) == 0 {
                timer is None && final(self).state() == State::Idle
            } else {
                timer == Some(duration) && final(self).state() == State::Delayed
            },
            final(self).provider() == old(self).provider(),
    {
        if duration.as_nanos() == 0 {
            return None;
        }
        self.state = State::Delayed;
        Some(duration)
    }
}

impl<D: Duration> Delay<D> {
    /// Starts the delay that the provider reports, unless that is zero. Returns the time to arm
    /// the timer for.
    pub fn maybe_delay(&mut self) -> (timer: Option<time::Duration>)
        requires
            old(self).state() == State::Idle,
        ensures
            match timer {
                None => old(self).provider().may_report(0) && final(self).state() == State::Idle,
                Some(duration) => {
                    &&& crate::clock::duration_nanos(duration) != 0
                    &&& old(self).provider().may_report(crate::clock::duration_nanos(duration))
                    &&& final(self).state() == State::Delayed
                },
            },
            final(self).provider() == old(self).provider(),
    {
        let duration = self.delay_duration.duration();
        self.delay_for(duration)
    }
}

/// What to do next for a read.
#[derive(Debug)]
pub enum ReadAction<'b, E> {
    /// Arm the timer for this long and start over with [`ReadGate::poll`].
    Arm(time::Duration),
    /// Hand these bytes to the reader, consume them from the buffer, and return.
    Deliver(&'b [u8]),
    /// The read is over for this poll.
    Return(IoPoll<(), E>),
}

/// What to do next for a look into the buffer.
#[derive(Debug)]
pub enum PeekAction<'b, E> {
    /// Arm the timer for this long and start over with [`ReadGate::poll`].
    Arm(time::Duration),
    /// The look is over for this poll.
    Return(IoPoll<&'b [u8], E>),
}

/// How many of `unread` bytes are left once `amt` of them have been consumed.
pub open spec fn left_of(unread: nat, amt: nat) -> nat {
    if amt <= unread {
        (unread - amt) as nat
    } else {
        0
    }
}

/// A read that has found `rem` in the buffer has to be delayed, unless the delay is zero.
///
/// That is so where the buffer was empty before and now holds the first byte of a burst. At the end
/// of the stream no burst has arrived, and there is nothing to hold back.
pub open spec fn starts_burst(buf_empty: bool, action: Action, rem: Seq<u8>) -> bool {
    action == Action::BeforeDelay && buf_empty && rem.len() > 0
}

/// The bytes of `rem` that a reader with room for `room` bytes takes.
pub open spec fn first_bytes(rem: Seq<u8>, room: nat) -> Seq<u8> {
    if rem.len() <= room {
        rem
    } else {
        rem.take(room as int)
    }
}

/// The delay decisions of a buffered reader.
#[derive(Debug)]
pub struct ReadGate<D> {
    delay: Delay<D>,
    unread: usize,
}

impl<D> ReadGate<D> {
    /// Whether a timer is running.
    pub closed spec fn state(&self) -> State {
        self.delay.state()
    }

    /// The provider of the delay.
    pub closed spec fn provider(&self) -> D {
        self.delay.provider()
    }

    /// How many bytes of the last burst are still to be read.
    pub closed spec fn unread(&self) -> nat {
        self.unread as nat
    }

    /// The last burst has been read to its end.
    pub open spec fn buf_empty(&self) -> bool {
        self.unread() == 0
    }

    /// Creates a gate that waits for a first burst.
    pub fn new(delay_duration: D) -> (gate: Self)
        ensures
            gate.state() == State::Idle,
            gate.provider() == delay_duration,
            gate.buf_empty(),
    {
        Self { delay: Delay::new(delay_duration), unread: 0 }
    }

    /// Whether a timer is running, which has then to be polled.
    pub fn is_delayed(&self) -> (delayed: bool)
        ensures
            delayed == (self.state() == State::Delayed),
    {
        self.delay.is_delayed()
    }

    /// Starts a poll of a read. `fired` tells whether the running timer has fired.
    ///
    /// Returns `None` for as long as the timer runs: the read is pending. Otherwise the buffer of
    /// the inner reader is to be filled next, and [`ReadGate::after_fill`] decides, or
    /// [`ReadGate::after_peek`] where the reader wants to look into the buffer itself.
    pub fn poll(&mut self, fired: bool) -> (action: Option<Action>)
        ensures
            action == delay_poll(old(self).state(), fired),
            final(self).state() == state_after_poll(old(self).state(), fired),
            match old(self).state() {
                State::Idle => action == Some(Action::BeforeDelay) && final(self).state()
                    == State::Idle,
                State::Delayed => if fired {
                    action == Some(Action::AfterDelay) && final(self).state() == State::Idle
                } else {
                    action is None && final(self).state() == State::Delayed
                },
            },
            final(self).provider() == old(self).provider(),
            final(self).unread() == old(self).unread(),
    {
        self.delay.poll(fired)
    }

    /// Takes note that the reader has consumed `amt` bytes of what it saw in the buffer.
    pub fn consume(&mut self, amt: usize)
        ensures
            final(self).unread() == left_of(old(self).unread(), amt as nat),
            amt <= old(self).unread() ==> final(self).unread() == old(self).unread() - amt,
            amt >= old(self).unread() ==> final(self).unread() == 0,
            final(self).state() == old(self).state(),
            final(self).provider() == old(self).provider(),
    {
        self.unread = self.unread.saturating_sub(amt);
    }
}

impl<D: Duration> ReadGate<D> {
    /// Decides a read once the inner reader has answered with what its buffer holds; `room` is how
    /// many bytes the reader can take.
    ///
    /// After a delay the buffer still holds what it held before, so it cannot be pending.
    pub fn after_fill<'b, E>(
        &mut self,
        action: Action,
        reply: IoPoll<&'b [u8], E>,
        room: usize,
    ) -> (result: ReadAction<'b, E>)
        requires
            old(self).state() == State::Idle,
            action == Action::AfterDelay ==> !(reply is Pending),
        ensures
            final(self).provider() == old(self).provider(),
            match reply {
                IoPoll::Pending => {
                    &&& result == ReadAction::<'b, E>::Return(IoPoll::Pending)
                    &&& final(self).state() == State::Idle
                    &&& final(self).unread() == old(self).unread()
                },
                IoPoll::Failed(error) => {
                    &&& result == ReadAction::<'b, E>::Return(IoPoll::Failed(error))
                    &&& final(self).state() == State::Idle
                    &&& final(self).unread() == old(self).unread()
                },
                IoPoll::Ready(rem) => match result {
                    ReadAction::Arm(timer) => {
                        &&& starts_burst(old(self).buf_empty(), action, rem@)
                        &&& action == Action::BeforeDelay && old(self).unread() == 0 && rem@.len()
                            > 0
                        &&& crate::clock::duration_nanos(timer) != 0
                        &&& old(self).provider().may_report(crate::clock::duration_nanos(timer))
                        &&& final(self).state() == State::Delayed
                        &&& final(self).unread() == old(self).unread()
                    },
                    ReadAction::Deliver(bytes) => {
                        &&& starts_burst(old(self).buf_empty(), action, rem@) ==> old(
                            self
                        ).provider().may_report(0)
                        &&& action == Action::BeforeDelay && old(self).unread() == 0 && rem@.len()
                            > 0 ==> old(self).provider().may_report(0)
                        &&& bytes@ == first_bytes(rem@, room as nat)
                        &&& bytes@.len() == if rem@.len() <= room {
                            rem@.len()
                        } else {
                            room as nat
                        }
                        &&& bytes@ == rem@.take(bytes@.len() as int)
                        &&& final(self).state() == State::Idle
                        &&& final(self).unread() == rem@.len() - bytes@.len()
                    },
                    ReadAction::Return(_) => false,
                },
            },
    {
        let rem: &'b [u8] = match reply {
            IoPoll::Pending => {
                return ReadAction::Return(IoPoll::Pending);
            },
            IoPoll::Failed(error) => {
                return ReadAction::Return(IoPoll::Failed(error));
            },
            IoPoll::Ready(rem) => rem,
        };
        if let Some(timer) = self.hold_back(action, rem) {
            return ReadAction::Arm(timer);
        }
        let amt: usize = if rem.len() <= room {
            rem.len()
        } else {
            room
        };
        self.unread = rem.len() - amt;
        ReadAction::Deliver(slice_subrange(rem, 0, amt))
    }

    /// Decides a look into the buffer once the inner reader has answered with what it holds.
    ///
    /// After a delay the buffer still holds what it held before, so it cannot be pending. What is
    /// seen stays in the buffer until [`ReadGate::consume`] takes note that it was consumed.
    pub fn after_peek<'b, E>(&mut self, action: Action, reply: IoPoll<&'b [u8], E>) -> (result:
        PeekAction<'b, E>)
        requires
            old(self).state() == State::Idle,
            action == Action::AfterDelay ==> !(reply is Pending),
        ensures
            final(self).provider() == old(self).provider(),
            match result {
                PeekAction::Arm(timer) => {
                    &&& reply matches IoPoll::Ready(rem)
                    &&& starts_burst(old(self).buf_empty(), action, rem@)
                    &&& action == Action::BeforeDelay && old(self).unread() == 0 && rem@.len() > 0
                    &&& crate::clock::duration_nanos(timer) != 0
                    &&& old(self).provider().may_report(crate::clock::duration_nanos(timer))
                    &&& final(self).state() == State::Delayed
                    &&& final(self).unread() == old(self).unread()
                },
                PeekAction::Return(answer) => {
                    &&& answer == reply
                    &&& final(self).state() == State::Idle
                    &&& match reply {
                        IoPoll::Ready(rem) => {
                            &&& starts_burst(old(self).buf_empty(), action, rem@) ==> old(
                                self
                            ).provider().may_report(0)
                            &&& action == Action::BeforeDelay && old(self).unread() == 0
                                && rem@.len() > 0 ==> old(self).provider().may_report(0)
                            &&& final(self).unread() == rem@.len()
                        },
                        _ => final(self).unread() == old(self).unread(),
                    }
                },
            },
    {
        let rem: &'b [u8] = match reply {
            IoPoll::Pending => {
                return PeekAction::Return(IoPoll::Pending);
            },
            IoPoll::Failed(error) => {
                return PeekAction::Return(IoPoll::Failed(error));
            },
            IoPoll::Ready(rem) => rem,
        };
        if let Some(timer) = self.hold_back(action, rem) {
            return PeekAction::Arm(timer);
        }
        self.unread = rem.len();
        PeekAction::Return(IoPoll::Ready(rem))
    }

    /// Starts a delay if `rem` begins a burst that has not been delayed. Returns the time to arm
    /// the timer for.
    fn hold_back(&mut self, action: Action, rem: &[u8]) -> (timer: Option<time::Duration>)
        requires
            old(self).state() == State::Idle,
        ensures
            final(self).provider() == old(self).provider(),
            final(self).unread() == old(self).unread(),
            match timer {
                None => {
                    &&& starts_burst(old(self).buf_empty(), action, rem@) ==> old(
                        self
                    ).provider().may_report(0)
                    &&& final(self).state() == State::Idle
                },
                Some(span) => {
                    &&& starts_burst(old(self).buf_empty(), action, rem@)
                    &&& crate::clock::duration_nanos(span) != 0
                    &&& old(self).provider().may_report(crate::clock::duration_nanos(span))
                    &&& final(self).state() == State::Delayed
                },
            },
    {
        if self.unread == 0 && rem.len() > 0 {
            if let Action::BeforeDelay = action {
                return self.delay.maybe_delay();
            }
        }
        None
    }
}

/// A reader adapter that delays the **first read of each new burst** of a buffered reader.
///
/// While the inner buffer still holds unread bytes the delay is not applied again: it comes back
/// once they have been consumed and another burst arrives.
pub struct DelayedReader<T, D> {
    inner: T,
    gate: ReadGate<D>,
}

impl<T, D> DelayedReader<T, D> {
    /// The inner reader.
    pub closed spec fn inner(&self) -> T {
        self.inner
    }

    /// The delay decisions.
    pub closed spec fn gate(&self) -> ReadGate<D> {
        self.gate
    }

    /// Wraps a buffered reader with a delay provider.
    pub fn new(inner: T, delay_duration: D) -> (reader: Self)
        ensures
            reader.inner() == inner,
            reader.gate().state() == State::Idle,
            reader.gate().provider() == delay_duration,
            reader.gate().buf_empty(),
    {
        Self { inner, gate: ReadGate::new(delay_duration) }
    }

    /// Access to the inner reader.
    pub fn get_ref(&self) -> (inner: &T)
        ensures
            *inner == self.inner(),
    {
        &self.inner
    }

    /// Mutable access to the inner reader and to its delay decisions, both at once.
    pub fn parts(&mut self) -> (parts: (&mut T, &mut ReadGate<D>))
        ensures
            *parts.0 == old(self).inner(),
            *parts.1 == old(self).gate(),
            final(self).inner() == *final(parts.0),
            final(self).gate() == *final(parts.1),
    {
        (&mut self.inner, &mut self.gate)
    }
}

/// What to do next for a delayed write, vectored write or shutdown.
#[derive(Debug)]
pub enum GateAction {
    /// The timer is still running: the operation is pending.
    Pending,
    /// Arm the timer for this long and start over.
    Arm(time::Duration),
    /// Perform the operation on the inner writer and return what it returns.
    Forward,
}

/// A writer adapter that delays **every write**, and the shutdown.
///
/// A flush is not delayed.
pub struct DelayedWriter<T, D> {
    inner: T,
    delay: Delay<D>,
}

impl<T, D> DelayedWriter<T, D> {
    /// The inner writer.
    pub closed spec fn inner(&self) -> T {
        self.inner
    }

    /// The delay decisions.
    pub closed spec fn delay(&self) -> Delay<D> {
        self.delay
    }

    /// Wraps a writer with a delay provider.
    pub fn new(inner: T, delay_duration: D) -> (writer: Self)
        ensures
            writer.inner() == inner,
            writer.delay().state() == State::Idle,
            writer.delay().provider() == delay_duration,
    {
        Self { inner, delay: Delay::new(delay_duration) }
    }

    /// Access to the inner writer.
    pub fn get_ref(&self) -> (inner: &T)
        ensures
            *inner == self.inner(),
    {
        &self.inner
    }

    /// Mutable access to the inner writer, on which the forwarded operations are performed.
    pub fn get_mut(&mut self) -> (inner: &mut T)
        ensures
            *inner == old(self).inner(),
            final(self).inner() == *final(inner),
            final(self).delay() == old(self).delay(),
    {
        &mut self.inner
    }

    /// Whether a timer is running, which has then to be polled.
    pub fn is_delayed(&self) -> (delayed: bool)
        ensures
            delayed == (self.delay().state() == State::Delayed),
    {
        self.delay.is_delayed()
    }
}

/// What a poll of a delayed operation does under a delay of `nanos`, where `fired` tells whether
/// the running timer has fired.
pub enum GateStep {
    /// Wait on.
    Pending,
    /// Arm the timer.
    Arm,
    /// Perform the operation.
    Forward,
}

/// Decides a poll of a delayed operation.
pub open spec fn gate_step(state: State, fired: bool, nanos: nat) -> GateStep {
    match delay_poll(state, fired) {
        None => GateStep::Pending,
        Some(Action::AfterDelay) => GateStep::Forward,
        Some(Action::BeforeDelay) => if nanos == 0 {
            GateStep::Forward
        } else {
            GateStep::Arm
        },
    }
}

/// The state that a poll of a delayed operation leaves.
pub open spec fn state_after_gate(state: State, fired: bool, nanos: nat) -> State {
    match gate_step(state, fired, nanos) {
        GateStep::Forward => State::Idle,
        _ => State::Delayed,
    }
}

impl<T, D: Duration> DelayedWriter<T, D> {
    /// Decides a poll of a write, a vectored write or the shutdown. `fired` tells whether the
    /// running timer has fired; without a running timer it is not looked at.
    pub fn poll_with_write_delay(&mut self, fired: bool) -> (action: GateAction)
        ensures
            final(self).inner() == old(self).inner(),
            final(self).delay().provider() == old(self).delay().provider(),
            match old(self).delay().state() {
                State::Delayed => {
                    &&& if fired {
                        action is Forward
                    } else {
                        action is Pending
                    }
                    &&& final(self).delay().state() == state_after_gate(State::Delayed, fired, 0)
                },
                State::Idle => exists|nanos: nat| #[trigger]
                    old(self).delay().provider().may_report(nanos) && match gate_step(
                        State::Idle,
                        fired,
                        nanos,
                    ) {
                        GateStep::Pending => action is Pending,
                        GateStep::Arm => action matches GateAction::Arm(timer)
                            && crate::clock::duration_nanos(timer) == nanos,
                        GateStep::Forward => action is Forward,
                    } && final(self).delay().state() == state_after_gate(State::Idle, fired, nanos)
                        && if nanos == 0 {
                        action is Forward && final(self).delay().state() == State::Idle
                    } else {
                        &&& action matches GateAction::Arm(timer)
                        &&& crate::clock::duration_nanos(timer) == nanos
                        &&& final(self).delay().state() == State::Delayed
                    },
            },
            old(self).delay().state() == State::Idle ==> !(action is Pending),
            old(self).delay().state() == State::Delayed ==> final(self).delay().state()
                == if fired {
                State::Idle
            } else {
                State::Delayed
            },
    {
        match self.delay.poll(fired) {
            None => GateAction::Pending,
            Some(Action::AfterDelay) => GateAction::Forward,
            Some(Action::BeforeDelay) => match self.delay.maybe_delay() {
                None => GateAction::Forward,
                Some(timer) => GateAction::Arm(timer),
            },
        }
    }
}

/// How many of the operations polled are forwarded, where each poll finds that the timer has fired
/// or not and, if it asks, a delay of so many nanoseconds.
pub open spec fn forwards(state: State, polls: Seq<(bool, nat)>) -> nat
    decreases polls.len(),
{
    if polls.len() == 0 {
        0
    } else {
        let (fired, nanos) = polls[0];
        forwards(state_after_gate(state, fired, nanos), polls.drop_first()) + if gate_step(
            state,
            fired,
            nanos,
        ) is Forward {
            1nat
        } else {
            0nat
        }
    }
}

/// How many times the timer is armed over the same polls.
pub open spec fn arms(state: State, polls: Seq<(bool, nat)>) -> nat
    decreases polls.len(),
{
    if polls.len() == 0 {
        0
    } else {
        let (fired, nanos) = polls[0];
        arms(state_after_gate(state, fired, nanos), polls.drop_first()) + if gate_step(
            state,
            fired,
            nanos,
        ) is Arm {
            1nat
        } else {
            0nat
        }
    }
}

/// The state after the same polls.
pub open spec fn state_after_polls(state: State, polls: Seq<(bool, nat)>) -> State
    decreases polls.len(),
{
    if polls.len() == 0 {
        state
    } else {
        let (fired, nanos) = polls[0];
        state_after_polls(state_after_gate(state, fired, nanos), polls.drop_first())
    }
}

/// One timer counts as running in [`State::Delayed`].
pub open spec fn running(state: State) -> nat {
    match state {
        State::Idle => 0,
        State::Delayed => 1,
    }
}

/// Every write is delayed: under delays that are not zero each operation that goes through has had
/// a timer of its own armed and waited for, whenever the timers fire and however the delay changes.
pub proof fn law_every_write_is_delayed(state: State, polls: Seq<(bool, nat)>)
    requires
        forall|i: int| 0 <= i < polls.len() ==> (#[trigger] polls[i]).1 > 0,
    ensures
        forwards(state, polls) + running(state_after_polls(state, polls)) == arms(state, polls)
            + running(state),
    decreases polls.len(),
{
    if polls.len() > 0 {
        let (fired, nanos) = polls[0];
        assert forall|i: int| 0 <= i < polls.len() - 1 implies (
        #[trigger] polls.drop_first()[i]).1 > 0 by {
            assert(polls[i + 1].1 > 0);
        }
        law_every_write_is_delayed(state_after_gate(state, fired, nanos), polls.drop_first());
    }
}

/// Under a delay of zero every operation goes through at once and no timer is armed.
pub proof fn law_zero_delay_is_immediate(polls: Seq<(bool, nat)>)
    requires
        forall|i: int| 0 <= i < polls.len() ==> (#[trigger] polls[i]).1 == 0,
    ensures
        forwards(State::Idle, polls) == polls.len(),
        arms(State::Idle, polls) == 0,
    decreases polls.len(),
{
    if polls.len() > 0 {
        assert forall|i: int| 0 <= i < polls.len() - 1 implies (
        #[trigger] polls.drop_first()[i]).1 == 0 by {
            assert(polls[i + 1].1 == 0);
        }
        law_zero_delay_is_immediate(polls.drop_first());
    }
}

/// How many timers are armed while a burst is read by reads with room for `rooms` bytes each.
pub open spec fn burst_arms(buf_empty: bool, burst: Seq<u8>, rooms: Seq<nat>, nanos: nat) -> nat
    decreases rooms.len(),
{
    if rooms.len() == 0 || burst.len() == 0 {
        0
    } else {
        let taken = first_bytes(burst, rooms[0]).len();
        burst_arms(
            taken == burst.len(),
            burst.skip(taken as int),
            rooms.drop_first(),
            nanos,
        ) + if nanos > 0 && starts_burst(buf_empty, Action::BeforeDelay, burst) {
            1nat
        } else {
            0nat
        }
    }
}

/// The bytes that those reads deliver.
pub open spec fn burst_delivered(burst: Seq<u8>, rooms: Seq<nat>) -> Seq<u8>
    decreases rooms.len(),
{
    if rooms.len() == 0 || burst.len() == 0 {
        Seq::empty()
    } else {
        let bytes = first_bytes(burst, rooms[0]);
        bytes + burst_delivered(burst.skip(bytes.len() as int), rooms.drop_first())
    }
}

/// How much room those reads have together.
pub open spec fn total_room(rooms: Seq<nat>) -> nat
    decreases rooms.len(),
{
    if rooms.len() == 0 {
        0
    } else {
        rooms[0] + total_room(rooms.drop_first())
    }
}

/// Once a burst has begun to be read it is not delayed again.
proof fn lemma_burst_in_progress(burst: Seq<u8>, rooms: Seq<nat>, nanos: nat)
    ensures
        burst_arms(false, burst, rooms, nanos) == 0,
    decreases rooms.len(),
{
    if rooms.len() > 0 && burst.len() > 0 {
        let taken = first_bytes(burst, rooms[0]).len();
        let rest = burst.skip(taken as int);
        if taken < burst.len() {
            lemma_burst_in_progress(rest, rooms.drop_first(), nanos);
        } else {
            assert(burst_arms(true, rest, rooms.drop_first(), nanos) == 0);
        }
    }
}

/// A burst is delayed once, at its first byte, however many reads it takes to read it.
pub proof fn law_burst_is_delayed_once(burst: Seq<u8>, rooms: Seq<nat>, nanos: nat)
    requires
        nanos > 0,
        burst.len() > 0,
        rooms.len() > 0,
    ensures
        burst_arms(true, burst, rooms, nanos) == 1,
{
    let taken = first_bytes(burst, rooms[0]).len();
    let rest = burst.skip(taken as int);
    if taken < burst.len() {
        lemma_burst_in_progress(rest, rooms.drop_first(), nanos);
    } else {
        assert(burst_arms(true, rest, rooms.drop_first(), nanos) == 0);
    }
}

/// To look into the buffer and consume what there is room for comes to the same as a read: as many
/// bytes of the burst are left, and it is delayed again or not.
pub proof fn law_peek_and_consume_is_a_read(rem: Seq<u8>, room: nat)
    ensures
        left_of(rem.len(), first_bytes(rem, room).len()) == rem.len() - first_bytes(
            rem,
            room,
        ).len(),
        left_of(rem.len(), first_bytes(rem, room).len()) == 0 <==> first_bytes(rem, room).len()
            == rem.len(),
{
}

/// The reads of a burst deliver its bytes in order, each once, as far as there is room.
pub proof fn law_burst_is_delivered_in_order(burst: Seq<u8>, rooms: Seq<nat>)
    ensures
        burst_delivered(burst, rooms) == first_bytes(burst, total_room(rooms)),
    decreases rooms.len(),
{
    if rooms.len() == 0 || burst.len() == 0 {
        assert(burst_delivered(burst, rooms) =~= first_bytes(burst, total_room(rooms)));
    } else {
        let bytes = first_bytes(burst, rooms[0]);
        let rest = burst.skip(bytes.len() as int);
        law_burst_is_delivered_in_order(rest, rooms.drop_first());
        assert(bytes + first_bytes(rest, total_room(rooms.drop_first())) =~= first_bytes(
            burst,
            total_room(rooms),
        ));
    }
}

/// A knob that is only ever set to one delay reports that delay, as far as 64 bits of nanoseconds
/// go.
pub proof fn law_delay_reads_back(knob: DynamicDuration, nanos: nat, read: nat)
    requires
        forall|delay: u64| #[trigger]
            knob.delays().contains(delay) ==> delay == truncated_nanos(nanos),
        knob.may_report(read),
    ensures
        read == nanos % 0x1_0000_0000_0000_0000,
        nanos <= u64::MAX ==> read == nanos,
{
    assert(knob.delays().contains(read as u64));
}

/// A read delivers the first bytes of the buffer, as many as there are and as there is room for:
/// all of them if they fit, else as many as fit, and none only if there are none or there is no
/// room.
pub proof fn law_read_delivers_what_fits(rem: Seq<u8>, room: nat)
    ensures
        first_bytes(rem, room).len() <= rem.len(),
        first_bytes(rem, room).len() <= room,
        first_bytes(rem, room).len() == rem.len() || first_bytes(rem, room).len() == room,
        forall|i: int|
            0 <= i < first_bytes(rem, room).len() ==> (#[trigger] first_bytes(rem, room)[i])
                == rem[i],
        rem.len() <= room ==> first_bytes(rem, room) == rem,
        rem.len() > 0 && room > 0 ==> first_bytes(rem, room).len() > 0,
{
}

/// Reads with room enough between them deliver the whole burst, and reads with less room deliver as
/// much of it as they have room for.
pub proof fn law_enough_room_delivers_the_burst(burst: Seq<u8>, rooms: Seq<nat>)
    ensures
        total_room(rooms) >= burst.len() ==> burst_delivered(burst, rooms) == burst,
        total_room(rooms) <= burst.len() ==> burst_delivered(burst, rooms) == burst.take(
            total_room(rooms) as int,
        ),
{
    law_burst_is_delivered_in_order(burst, rooms);
    assert(burst.take(burst.len() as int) =~= burst);
}

/// A burst is held back at its first byte only: not before one has arrived, not in the middle of
/// one, and not once the timer has fired for it.
pub proof fn law_only_the_first_byte_is_held_back(buf_empty: bool, action: Action, rem: Seq<u8>)
    ensures
        starts_burst(buf_empty, action, rem) <==> action == Action::BeforeDelay && buf_empty
            && rem.len() > 0,
{
}

/// A timer is waited for until it fires, and what waited for it then goes on. Without a timer there
/// is nothing to wait for.
pub proof fn law_timer_is_waited_for_and_then_left(state: State, fired: bool)
    ensures
        delay_poll(state, fired) is None <==> state == State::Delayed && !fired,
        delay_poll(state, fired) == Some(Action::AfterDelay) <==> state == State::Delayed && fired,
        delay_poll(state, fired) == Some(Action::BeforeDelay) <==> state == State::Idle,
        state_after_poll(state, fired) == State::Delayed <==> state == State::Delayed && !fired,
{
}

/// An operation is pending only while a timer runs. An idle poll under a delay that is not zero
/// arms a timer, and every other one forwards the operation.
pub proof fn law_pending_only_while_the_timer_runs(state: State, fired: bool, nanos: nat)
    ensures
        gate_step(state, fired, nanos) is Pending <==> state == State::Delayed && !fired,
        gate_step(state, fired, nanos) is Arm <==> state == State::Idle && nanos > 0,
        gate_step(state, fired, nanos) is Forward <==> state == State::Delayed && fired || state
            == State::Idle && nanos == 0,
        state_after_gate(state, fired, nanos) == State::Idle <==> gate_step(
            state,
            fired,
            nanos,
        ) is Forward,
{
}

/// Operations under delays that are not zero all go through once their timers have fired: two polls
/// for each, one that arms the timer and one that finds it fired.
pub proof fn law_operations_go_through_once_their_timers_fire(polls: Seq<(bool, nat)>)
    requires
        polls.len() % 2 == 0,
        forall|i: int| 0 <= i < polls.len() && i % 2 == 0 ==> (#[trigger] polls[i]).1 > 0,
        forall|i: int| 0 <= i < polls.len() && i % 2 == 1 ==> (#[trigger] polls[i]).0,
    ensures
        forwards(State::Idle, polls) == polls.len() / 2,
        arms(State::Idle, polls) == polls.len() / 2,
        state_after_polls(State::Idle, polls) == State::Idle,
    decreases polls.len(),
{
    if polls.len() > 0 {
        let rest = polls.drop_first();
        let later = rest.drop_first();
        assert(polls[0].1 > 0 && polls[1].0);
        assert(rest[0] == polls[1]);
        assert(forall|i: int| 0 <= i < later.len() ==> (#[trigger] later[i]) == polls[i + 2]);
        law_operations_go_through_once_their_timers_fire(later);
        assert(forwards(State::Delayed, rest) == forwards(State::Idle, later) + 1);
        assert(arms(State::Delayed, rest) == arms(State::Idle, later));
        assert(state_after_polls(State::Delayed, rest) == state_after_polls(State::Idle, later));
    }
}

/// However long a timer takes to fire, an operation waits for it and then goes through, once.
pub proof fn law_operation_waits_for_its_timer(waits: nat, nanos: nat)
    requires
        nanos > 0,
    ensures
        forwards(
            State::Idle,
            seq![(false, nanos)] + Seq::new(waits, |_i: int| (false, nanos)) + seq![(true, nanos)],
        ) == 1,
{
    let polls = seq![(false, nanos)] + Seq::new(waits, |_i: int| (false, nanos)) + seq![
        (true, nanos),
    ];
    let waiting = Seq::new(waits, |_i: int| (false, nanos)) + seq![(true, nanos)];
    assert(polls.drop_first() =~= waiting);
    lemma_waiting_ends_in_one_forward(waits, nanos);
    assert(forwards(State::Idle, polls) == forwards(State::Delayed, waiting));
}

/// A running timer that fires after so many polls lets one operation through.
proof fn lemma_waiting_ends_in_one_forward(waits: nat, nanos: nat)
    ensures
        forwards(
            State::Delayed,
            Seq::new(waits, |_i: int| (false, nanos)) + seq![(true, nanos)],
        ) == 1,
    decreases waits,
{
    let polls = Seq::new(waits, |_i: int| (false, nanos)) + seq![(true, nanos)];
    if waits == 0 {
        assert(polls.drop_first() =~= Seq::<(bool, nat)>::empty());
        assert(forwards(State::Idle, polls.drop_first()) == 0);
    } else {
        let fewer = (waits - 1) as nat;
        assert(polls.drop_first() =~= Seq::new(fewer, |_i: int| (false, nanos)) + seq![
            (true, nanos),
        ]);
        lemma_waiting_ends_in_one_forward(fewer, nanos);
    }
}

/// Consuming takes away as many unread bytes as are consumed, down to none.
pub proof fn law_consuming_takes_away(unread: nat, first: nat, second: nat)
    ensures
        first <= unread ==> left_of(unread, first) + first == unread,
        first >= unread ==> left_of(unread, first) == 0,
        left_of(left_of(unread, first), second) == left_of(unread, first + second),
{
}

/// A knob keeps a delay up to what 64 bits of nanoseconds hold, and beyond that a delay that
/// differs by a multiple of 2^64 nanoseconds.
pub proof fn law_truncation_keeps_the_low_bits(nanos: nat)
    ensures
        nanos <= u64::MAX ==> truncated_nanos(nanos) == nanos,
        truncated_nanos(nanos + 0x1_0000_0000_0000_0000) == truncated_nanos(nanos),
{
}

/// A fixed delay reports itself, and nothing else.
pub proof fn law_fixed_delay_reports_itself(fixed: time::Duration, read: nat)
    ensures
        fixed.may_report(read) <==> read == crate::clock::duration_nanos(fixed),
{
}

/// What a knob may report is what its cell holds.
proof fn lemma_delays_are_held_by_the_cell(knob: DynamicDuration, nanos: u64)
    ensures
        knob.may_report(nanos as nat) <==> crate::cell::u64_cell_values(knob.duration).contains(
            nanos,
        ),
{
}

} // verus!
