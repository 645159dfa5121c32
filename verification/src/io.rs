//! Extension traits that put the adapters around a stream, and abortive close.

use crate::delayer::{DelayedReader, DelayedWriter, DynamicDuration};
use crate::shutdowner::Shutdowner;
use crate::slicer::{DynamicSize, SlicedWriter};
use std::io;
use std::sync::Arc;
use std::time;
use vstd::prelude::*;

verus! {

#[verifier::external_type_specification]
#[verifier::external_body]
pub struct ExIoError(std::io::Error);

/// Request abortive close, a reset rather than a graceful end, where supported.
///
/// On TCP, a linger time of zero makes the kernel send a reset when the socket is closed. Streams
/// for which linger means nothing do nothing and succeed. It is safe to ask more than once.
///
/// The adapters hand the request to the stream that they wrap.
pub trait ResetLinger: Sized {
    /// Whether a request can turn the stream `before` into `after` and return `result`.
    spec fn may_reset(before: Self, after: Self, result: io::Result<()>) -> bool;

    /// Asks for an abortive close.
    fn set_reset_linger(&mut self) -> (result: io::Result<()>)
        ensures
            Self::may_reset(*old(self), *final(self), result),
    ;
}

/// Asking a stream that knows no linger succeeds and changes nothing.
pub open spec fn nothing_to_reset<T>(before: T, after: T, result: io::Result<()>) -> bool {
    after == before && result is Ok
}

#[verifier::external_type_specification]
#[verifier::external_body]
pub struct ExTcpStream(tokio::net::TcpStream);

/// The socket has been told to linger for no time at all.
pub uninterp spec fn zero_linger(stream: tokio::net::TcpStream) -> bool;

/// `TcpStream::set_zero_linger`: if it succeeds, the socket lingers for no time at all. Whether it
/// succeeds is up to the operating system, and nothing is said of that.
#[verifier::external_body]
fn set_zero_linger(stream: &mut tokio::net::TcpStream) -> (result: io::Result<()>)
    ensures
        result is Ok ==> zero_linger(*final(stream)),
{
    stream.set_zero_linger()
}

#[verifier::external_type_specification]
#[verifier::external_body]
pub struct ExUnixStream(tokio::net::UnixStream);

#[verifier::external_type_specification]
#[verifier::external_body]
pub struct ExPipeReceiver(tokio::net::unix::pipe::Receiver);

#[verifier::external_type_specification]
#[verifier::external_body]
pub struct ExUdpSocket(tokio::net::UdpSocket);

#[verifier::external_type_specification]
#[verifier::external_body]
#[verifier::reject_recursive_types(RW)]
pub struct ExBufStream<RW>(tokio::io::BufStream<RW>);

#[verifier::external_type_specification]
#[verifier::external_body]
#[verifier::reject_recursive_types(R)]
pub struct ExBufReader<R>(tokio::io::BufReader<R>);

#[verifier::external_type_specification]
#[verifier::external_body]
#[verifier::reject_recursive_types(W)]
pub struct ExBufWriter<W>(tokio::io::BufWriter<W>);

#[verifier::external_type_specification]
#[verifier::external_body]
pub struct ExDuplexStream(tokio::io::DuplexStream);

#[verifier::external_type_specification]
#[verifier::external_body]
pub struct ExSimplexStream(tokio::io::SimplexStream);

impl ResetLinger for tokio::net::TcpStream {
    open spec fn may_reset(before: Self, after: Self, result: io::Result<()>) -> bool {
        result is Ok ==> zero_linger(after)
    }

    fn set_reset_linger(&mut self) -> (result: io::Result<()>)
        ensures
            result is Ok ==> zero_linger(*final(self)),
    {
        set_zero_linger(self)
    }
}

impl ResetLinger for tokio::net::UnixStream {
    open spec fn may_reset(before: Self, after: Self, result: io::Result<()>) -> bool {
        nothing_to_reset(before, after, result)
    }

    fn set_reset_linger(&mut self) -> (result: io::Result<()>)
        ensures
            result is Ok,
            *final(self) == *old(self),
    {
        Ok(())
    }
}

impl ResetLinger for tokio::net::unix::pipe::Receiver {
    open spec fn may_reset(before: Self, after: Self, result: io::Result<()>) -> bool {
        nothing_to_reset(before, after, result)
    }

    fn set_reset_linger(&mut self) -> (result: io::Result<()>)
        ensures
            result is Ok,
            *final(self) == *old(self),
    {
        Ok(())
    }
}

impl ResetLinger for tokio::net::UdpSocket {
    open spec fn may_reset(before: Self, after: Self, result: io::Result<()>) -> bool {
        nothing_to_reset(before, after, result)
    }

    fn set_reset_linger(&mut self) -> (result: io::Result<()>)
        ensures
            result is Ok,
            *final(self) == *old(self),
    {
        Ok(())
    }
}

impl<RW> ResetLinger for tokio::io::BufStream<RW> {
    open spec fn may_reset(before: Self, after: Self, result: io::Result<()>) -> bool {
        nothing_to_reset(before, after, result)
    }

    fn set_reset_linger(&mut self) -> (result: io::Result<()>)
        ensures
            result is Ok,
            *final(self) == *old(self),
    {
        Ok(())
    }
}

impl<R> ResetLinger for tokio::io::BufReader<R> {
    open spec fn may_reset(before: Self, after: Self, result: io::Result<()>) -> bool {
        nothing_to_reset(before, after, result)
    }

    fn set_reset_linger(&mut self) -> (result: io::Result<()>)
        ensures
            result is Ok,
            *final(self) == *old(self),
    {
        Ok(())
    }
}

impl<W> ResetLinger for tokio::io::BufWriter<W> {
    open spec fn may_reset(before: Self, after: Self, result: io::Result<()>) -> bool {
        nothing_to_reset(before, after, result)
    }

    fn set_reset_linger(&mut self) -> (result: io::Result<()>)
        ensures
            result is Ok,
            *final(self) == *old(self),
    {
        Ok(())
    }
}

impl ResetLinger for tokio::io::DuplexStream {
    open spec fn may_reset(before: Self, after: Self, result: io::Result<()>) -> bool {
        nothing_to_reset(before, after, result)
    }

    fn set_reset_linger(&mut self) -> (result: io::Result<()>)
        ensures
            result is Ok,
            *final(self) == *old(self),
    {
        Ok(())
    }
}

impl ResetLinger for tokio::io::SimplexStream {
    open spec fn may_reset(before: Self, after: Self, result: io::Result<()>) -> bool {
        nothing_to_reset(before, after, result)
    }

    fn set_reset_linger(&mut self) -> (result: io::Result<()>)
        ensures
            result is Ok,
            *final(self) == *old(self),
    {
        Ok(())
    }
}

impl<T: ResetLinger, S> ResetLinger for SlicedWriter<T, S> {
    open spec fn may_reset(before: Self, after: Self, result: io::Result<()>) -> bool {
        &&& T::may_reset(before.inner(), after.inner(), result)
        &&& after.budget() == before.budget()
        &&& after.phase() == before.phase()
    }

    fn set_reset_linger(&mut self) -> (result: io::Result<()>)
        ensures
            T::may_reset(old(self).inner(), final(self).inner(), result),
            final(self).budget() == old(self).budget(),
            final(self).phase() == old(self).phase(),
    {
        self.get_mut().set_reset_linger()
    }
}

impl<T: ResetLinger, D> ResetLinger for DelayedReader<T, D> {
    open spec fn may_reset(before: Self, after: Self, result: io::Result<()>) -> bool {
        &&& T::may_reset(before.inner(), after.inner(), result)
        &&& after.gate() == before.gate()
    }

    fn set_reset_linger(&mut self) -> (result: io::Result<()>)
        ensures
            T::may_reset(old(self).inner(), final(self).inner(), result),
            final(self).gate() == old(self).gate(),
    {
        let (inner, _gate) = self.parts();
        inner.set_reset_linger()
    }
}

impl<T: ResetLinger, D> ResetLinger for DelayedWriter<T, D> {
    open spec fn may_reset(before: Self, after: Self, result: io::Result<()>) -> bool {
        &&& T::may_reset(before.inner(), after.inner(), result)
        &&& after.delay() == before.delay()
    }

    fn set_reset_linger(&mut self) -> (result: io::Result<()>)
        ensures
            T::may_reset(old(self).inner(), final(self).inner(), result),
            final(self).delay() == old(self).delay(),
    {
        self.get_mut().set_reset_linger()
    }
}

impl<T: ResetLinger, E> ResetLinger for Shutdowner<T, E> {
    open spec fn may_reset(before: Self, after: Self, result: io::Result<()>) -> bool {
        &&& T::may_reset(before.inner(), after.inner(), result)
        &&& after.signal() == before.signal()
    }

    fn set_reset_linger(&mut self) -> (result: io::Result<()>)
        ensures
            T::may_reset(old(self).inner(), final(self).inner(), result),
            final(self).signal() == old(self).signal(),
    {
        self.get_mut().set_reset_linger()
    }
}

/// Asking a stream that knows no linger again does no more than asking it once.
pub proof fn law_reset_can_be_repeated<T>(
    before: T,
    between: T,
    after: T,
    first: io::Result<()>,
    second: io::Result<()>,
)
    requires
        nothing_to_reset(before, between, first),
        nothing_to_reset(between, after, second),
    ensures
        nothing_to_reset(before, after, first),
        nothing_to_reset(before, after, second),
{
}

/// Read-side extension methods.
pub trait NetEmReadExt: Sized {
    /// Adds a fixed **one-way** delay before the first byte of each read **burst** of a buffered
    /// reader.
    fn delay_reads(self, delay: time::Duration) -> (reader: DelayedReader<Self, time::Duration>)
        ensures
            reader.inner() == self,
            reader.gate().provider() == delay,
            reader.gate().state() == crate::delayer::State::Idle,
            reader.gate().buf_empty(),
    {
        DelayedReader::new(self, delay)
    }

    /// Same as [`delay_reads`](Self::delay_reads) but with a **dynamic** delay knob.
    fn delay_reads_dyn(
        self,
        delay: Arc<DynamicDuration>,
    ) -> (reader: DelayedReader<Self, Arc<DynamicDuration>>)
        ensures
            reader.inner() == self,
            reader.gate().provider() == delay,
            reader.gate().state() == crate::delayer::State::Idle,
            reader.gate().buf_empty(),
    {
        DelayedReader::new(self, delay)
    }
}

impl<T> NetEmReadExt for T {

}

/// Write-side extension methods.
pub trait NetEmWriteExt: Sized {
    /// Adds a fixed delay **before each write and shutdown** operation.
    fn delay_writes(self, delay: time::Duration) -> (writer: DelayedWriter<Self, time::Duration>)
        ensures
            writer.inner() == self,
            writer.delay().provider() == delay,
            writer.delay().state() == crate::delayer::State::Idle,
    {
        DelayedWriter::new(self, delay)
    }

    /// Same as [`delay_writes`](Self::delay_writes) but with a **dynamic** delay knob.
    fn delay_writes_dyn(
        self,
        delay: Arc<DynamicDuration>,
    ) -> (writer: DelayedWriter<Self, Arc<DynamicDuration>>)
        ensures
            writer.inner() == self,
            writer.delay().provider() == delay,
            writer.delay().state() == crate::delayer::State::Idle,
    {
        DelayedWriter::new(self, delay)
    }

    /// Forces writes to be **sliced** into fixed-size segments, with a flush after each.
    ///
    /// A size of `0` means pass-through.
    fn slice_writes(self, size: usize) -> (writer: SlicedWriter<Self, usize>)
        ensures
            writer.inner() == self,
            writer.budget() == size,
            writer.phase() == crate::slicer::Phase::Writing,
    {
        SlicedWriter::new(self, size)
    }

    /// Dynamic version of [`slice_writes`](Self::slice_writes).
    fn slice_writes_dyn(
        self,
        size: Arc<DynamicSize>,
    ) -> (writer: SlicedWriter<Self, Arc<DynamicSize>>)
        ensures
            writer.inner() == self,
            writer.budget() == size,
            writer.phase() == crate::slicer::Phase::Writing,
    {
        SlicedWriter::new(self, size)
    }
}

impl<T> NetEmWriteExt for T {

}

/// A request on a stream that knows no linger succeeds and leaves the stream alone.
pub proof fn law_no_linger_means_no_change<T>(before: T, after: T, result: io::Result<()>)
    ensures
        nothing_to_reset(before, after, result) <==> result is Ok && after == before,
{
}

} // verus!
