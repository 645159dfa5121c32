//! A stream adapter that can be failed from the outside.
//!
//! [`Shutdowner`] forwards the operations on a stream until an error arrives over a oneshot
//! channel, or the channel is dropped. From then on every operation fails: the first time with the
//! error that was delivered, later with [`SHUTDOWN_ERROR`].
//!
//! The adapter decides; the caller polls the channel before each operation and reports what it
//! found to [`Shutdowner::poll_error`].

use tokio::sync::oneshot;
use vstd::prelude::*;

verus! {

#[verifier::external_type_specification]
#[verifier::external_body]
#[verifier::reject_recursive_types(T)]
pub struct ExOneshotReceiver<T>(tokio::sync::oneshot::Receiver<T>);

#[verifier::external_type_specification]
#[verifier::external_body]
pub struct ExOneshotRecvError(tokio::sync::oneshot::error::RecvError);

/// Error returned when a [`Shutdowner`] has been tripped, or its sender dropped, and no error of
/// its own was supplied.
#[derive(Debug, Clone, Copy, PartialEq, Eq, Structural)]
pub struct ShutdownError;

/// An instance of [`ShutdownError`].
pub const SHUTDOWN_ERROR: ShutdownError = ShutdownError;

impl ShutdownError {
    /// The text that describes the error.
    pub fn message(&self) -> (text: &'static str)
        ensures
            text@ == "stream was already shut down"@,
    {
        "stream was already shut down"
    }
}

/// What a poll of the shutdown channel found.
#[derive(Debug, PartialEq, Eq)]
pub enum Signal<E> {
    /// Nothing has been sent yet.
    Pending,
    /// This error was sent.
    Sent(E),
    /// The sender was dropped without sending.
    Dropped,
}

/// Why an operation fails.
#[derive(Debug, PartialEq, Eq)]
pub enum Failure<E> {
    /// With the error that was sent.
    Sent(E),
    /// With the error of a stream that is shut down.
    Shutdown(ShutdownError),
}

/// A wrapper around a stream that can be **force-failed** from the outside by an error over a
/// oneshot channel.
#[verifier::reject_recursive_types(E)]
pub struct Shutdowner<T, E> {
    inner: T,
    /// The channel for a single shutdown signal; `None` once it has fired.
    err_rx: Option<oneshot::Receiver<E>>,
}

/// How an operation fails, if it does, given whether the channel is still open and what a poll of
/// it found.
pub open spec fn failure_of<E>(open: bool, signal: Signal<E>) -> Option<Failure<E>> {
    if !open {
        Some(Failure::Shutdown(ShutdownError))
    } else {
        match signal {
            Signal::Pending => None,
            Signal::Sent(error) => Some(Failure::Sent(error)),
            Signal::Dropped => Some(Failure::Shutdown(ShutdownError)),
        }
    }
}

impl<T, E> Shutdowner<T, E> {
    /// The inner stream.
    pub closed spec fn inner(&self) -> T {
        self.inner
    }

    /// The shutdown channel, for as long as it has not fired.
    pub closed spec fn signal(&self) -> Option<oneshot::Receiver<E>> {
        self.err_rx
    }

    /// Creates an adapter that forwards the operations on `inner` until `err_rx` fires or its
    /// sender is dropped.
    pub fn new(inner: T, err_rx: oneshot::Receiver<E>) -> (shutdowner: Self)
        ensures
            shutdowner.inner() == inner,
            shutdowner.signal() == Some(err_rx),
    {
        Shutdowner { inner, err_rx: Some(err_rx) }
    }

    /// Access to the inner stream.
    pub fn get_ref(&self) -> (inner: &T)
        ensures
            *inner == self.inner(),
    {
        &self.inner
    }

    /// Mutable access to the inner stream, on which the forwarded operations are performed.
    pub fn get_mut(&mut self) -> (inner: &mut T)
        ensures
            *inner == old(self).inner(),
            final(self).inner() == *final(inner),
            final(self).signal() == old(self).signal(),
    {
        &mut self.inner
    }

    /// The channel to poll before an operation, for as long as it has not fired.
    pub fn receiver(&mut self) -> (channel: Option<&mut oneshot::Receiver<E>>)
        ensures
            channel is Some <==> old(self).signal() is Some,
            channel matches Some(receiver) ==> {
                &&& old(self).signal() == Some(*receiver)
                &&& final(self).signal() == Some(*final(receiver))
            },
            channel is None ==> final(self).signal() is None,
            final(self).inner() == old(self).inner(),
    {
        self.err_rx.as_mut()
    }

    /// Takes what a poll of the channel found and decides whether the operation fails. Once the
    /// channel has fired, `signal` is not looked at.
    ///
    /// Returns `None` if the operation is to be forwarded.
    pub fn poll_error(&mut self, signal: Signal<E>) -> (failure: Option<Failure<E>>)
        ensures
            failure == failure_of(old(self).signal() is Some, signal),
            old(self).signal() is None ==> failure == Some(Failure::<E>::Shutdown(ShutdownError)),
            old(self).signal() is Some ==> match signal {
                Signal::Pending => failure is None,
                Signal::Sent(error) => failure == Some(Failure::Sent(error)),
                Signal::Dropped => failure == Some(Failure::<E>::Shutdown(ShutdownError)),
            },
            final(self).signal() == if failure is None {
                old(self).signal()
            } else {
                None
            },
            final(self).inner() == old(self).inner(),
    {
        if self.err_rx.is_none() {
            return Some(Failure::Shutdown(SHUTDOWN_ERROR));
        }
        match signal {
            Signal::Pending => None,
            Signal::Sent(error) => {
                self.err_rx = None;
                Some(Failure::Sent(error))
            },
            Signal::Dropped => {
                self.err_rx = None;
                Some(Failure::Shutdown(SHUTDOWN_ERROR))
            },
        }
    }
}

/// Whether the channel is still open after a sequence of polls found `signals`.
pub open spec fn open_after<E>(open: bool, signals: Seq<Signal<E>>) -> bool
    decreases signals.len(),
{
    if signals.len() == 0 {
        open
    } else {
        open_after(open && signals[0] is Pending, signals.drop_first())
    }
}

/// After the first failure every later operation fails, whatever polls of the channel would find,
/// and always with the shutdown error.
pub proof fn law_shutdown_is_final<E>(signals: Seq<Signal<E>>, later: Signal<E>)
    ensures
        !open_after(false, signals),
        failure_of(open_after(false, signals), later) == Some(
            Failure::<E>::Shutdown(ShutdownError),
        ),
    decreases signals.len(),
{
    if signals.len() > 0 {
        law_shutdown_is_final(signals.drop_first(), later);
    }
}

/// As long as nothing is sent and the sender is alive, every operation is forwarded.
pub proof fn law_open_channel_forwards<E>(signals: Seq<Signal<E>>)
    requires
        forall|i: int| 0 <= i < signals.len() ==> (#[trigger] signals[i]) is Pending,
    ensures
        open_after(true, signals),
        forall|i: int|
            0 <= i < signals.len() ==> failure_of(true, #[trigger] signals[i]) is None,
    decreases signals.len(),
{
    if signals.len() > 0 {
        assert forall|i: int| 0 <= i < signals.drop_first().len() implies (
        #[trigger] signals.drop_first()[i]) is Pending by {
            assert(signals.drop_first()[i] == signals[i + 1]);
        }
        assert(signals[0] is Pending);
        law_open_channel_forwards(signals.drop_first());
    }
}

/// The operation that finds a sent error fails with it, and every operation after that fails with
/// the shutdown error. If the sender is dropped instead, the operation that finds it so fails with
/// the shutdown error too.
pub proof fn law_first_failure_then_shutdown<E>(
    before: Seq<Signal<E>>,
    signal: Signal<E>,
    later: Seq<Signal<E>>,
    last: Signal<E>,
)
    requires
        forall|i: int| 0 <= i < before.len() ==> (#[trigger] before[i]) is Pending,
        !(signal is Pending),
    ensures
        ({
            let open = open_after(true, before);
            &&& signal matches Signal::Sent(error) ==> failure_of(open, signal) == Some(
                Failure::Sent(error),
            )
            &&& signal is Dropped ==> failure_of(open, signal) == Some(
                Failure::<E>::Shutdown(ShutdownError),
            )
            &&& failure_of(
                open_after(open && signal is Pending, later),
                last,
            ) == Some(Failure::<E>::Shutdown(ShutdownError))
        }),
{
    law_open_channel_forwards(before);
    law_shutdown_is_final(later, last);
}

/// An operation fails if and only if the channel has fired before or fires now, and it fails with
/// the error that was sent if and only if that error has just arrived.
pub proof fn law_failure_follows_the_channel<E>(open: bool, signal: Signal<E>, error: E)
    ensures
        failure_of(open, signal) is None <==> open && signal is Pending,
        failure_of(open, signal) == Some(Failure::Sent(error)) <==> open && signal == Signal::Sent(
            error,
        ),
        failure_of(open, signal) == Some(Failure::<E>::Shutdown(ShutdownError)) <==> !open
            || signal is Dropped,
{
}

} // verus!
