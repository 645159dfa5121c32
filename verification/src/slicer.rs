//! Slice-and-flush writer adapter.
//!
//! [`SlicedWriter`] forwards every write in segments of at most a given size and has the inner
//! writer flushed after each segment before it reports the segment as written. A size of **`0`**
//! disables the adapter, which then passes writes through unchanged, once a segment that is still
//! to be flushed has been.
//!
//! The adapter decides and the caller performs: [`SlicedWriter::poll_write`] and
//! [`SlicedWriter::poll_write_vectored`] say which operation of the inner writer to poll next,
//! [`SlicedWriter::after_write`] and [`SlicedWriter::after_flush`] take what the operation came
//! back with and say how to go on.

use crate::cell::{load_usize, new_usize_cell, store_usize};
use crate::iovec::{limit_io_slices, IoVecs};
use crate::poll::IoPoll;
use std::io::IoSlice;
use std::sync::atomic::AtomicUsize;
use std::sync::Arc;
use vstd::prelude::*;

verus! {

/// Strategy for determining the current slice size.
///
/// The size is the largest number of bytes that one write may hand to the inner writer before a
/// flush is forced. A size of **`0`** disables slicing.
///
/// A plain `usize` serves fixed configurations; a [`DynamicSize`] can be adjusted while writers
/// use it.
pub trait Size {
    /// Whether a read of the size can return `size`.
    spec fn may_report(&self, size: usize) -> bool;

    /// Returns the current slice size in bytes.
    fn size(&self) -> (size: usize)
        ensures
            self.may_report(size),
    ;

    /// Whether the current slice size is `0`.
    fn is_zero(&self) -> (zero: bool)
        ensures
            exists|size: usize| #[trigger] self.may_report(size) && zero == (size == 0),
    ;
}

impl Size for usize {
    open spec fn may_report(&self, size: usize) -> bool {
        size == *self
    }

    fn size(&self) -> (size: usize)
        ensures
            size == *self,
    {
        *self
    }

    fn is_zero(&self) -> (zero: bool)
        ensures
            zero == (*self == 0),
    {
        assert(self.may_report(*self));
        *self == 0
    }
}

/// Lock-free, shareable slice-size knob.
///
/// Every holder of the handle sees an update. A size of **`0`** disables slicing.
#[derive(Debug)]
pub struct DynamicSize {
    size: AtomicUsize,
}

impl DynamicSize {
    /// The sizes that the knob is set to at one time or another.
    pub closed spec fn sizes(&self) -> Set<usize> {
        crate::cell::usize_cell_values(self.size)
    }

    /// Creates a knob that starts out at `size`.
    pub fn new(size: usize) -> (knob: Arc<Self>)
        ensures
            knob.sizes().contains(size),
    {
        Arc::new(Self { size: new_usize_cell(size) })
    }

    /// Updates the slice size seen by all users of this handle.
    ///
    /// Passing `0` disables slicing.
    pub fn set(&self, size: usize)
        ensures
            self.sizes().contains(size),
    {
        let _ = store_usize(&self.size, size);
    }
}

impl Default for DynamicSize {
    /// A knob that starts out disabled.
    fn default() -> (knob: Self)
        ensures
            knob.sizes().contains(0),
    {
        Self { size: new_usize_cell(0) }
    }
}

impl Size for DynamicSize {
    open spec fn may_report(&self, size: usize) -> bool {
        self.sizes().contains(size)
    }

    fn size(&self) -> (size: usize)
        ensures
            self.sizes().contains(size),
    {
        load_usize(&self.size)
    }

    fn is_zero(&self) -> (zero: bool)
        ensures
            zero ==> self.sizes().contains(0),
            !zero ==> exists|size: usize| #[trigger] self.sizes().contains(size) && size > 0,
    {
        let size: usize = load_usize(&self.size);
        assert(self.may_report(size));
        size == 0
    }
}

impl Size for Arc<DynamicSize> {
    open spec fn may_report(&self, size: usize) -> bool {
        self.sizes().contains(size)
    }

    fn size(&self) -> (size: usize)
        ensures
            self.sizes().contains(size),
    {
        load_usize(&self.size)
    }

    fn is_zero(&self) -> (zero: bool)
        ensures
            zero ==> self.sizes().contains(0),
            !zero ==> exists|size: usize| #[trigger] self.sizes().contains(size) && size > 0,
    {
        let size: usize = load_usize(&self.size);
        assert(self.may_report(size));
        size == 0
    }
}

/// Where a sliced write stands.
#[derive(Debug, Clone, Copy, PartialEq, Eq, Structural)]
pub enum Phase {
    /// Normal write path: issue a write, cut to the slice size, to the inner writer.
    Writing,
    /// The inner writer has taken this many bytes; they have to be flushed before they are
    /// reported as written.
    Flushing(usize),
}

/// What to do next for a write.
#[derive(Debug, PartialEq, Eq)]
pub enum WriteAction<E> {
    /// Poll a write of the whole buffer on the inner writer and return what it returns.
    Forward,
    /// Poll a write of the first so many bytes of the buffer on the inner writer and go on with
    /// [`SlicedWriter::after_write`].
    Write(usize),
    /// Poll a flush of the inner writer and go on with [`SlicedWriter::after_flush`].
    Flush,
    /// The write is over for this poll.
    Return(IoPoll<usize, E>),
}

/// What to do next for a vectored write.
pub enum VectoredAction<'b> {
    /// Poll a vectored write of all the buffers on the inner writer and return what it returns.
    Forward,
    /// Poll a vectored write of these slices on the inner writer and go on with
    /// [`SlicedWriter::after_write`].
    Write(IoVecs<'b>),
    /// Poll a flush of the inner writer and go on with [`SlicedWriter::after_flush`].
    Flush,
}

/// A writer adapter that slices each write into segments and has the inner writer flushed after
/// each segment.
///
/// * `T` is the inner writer.
/// * `S` is a [`Size`] provider.
pub struct SlicedWriter<T, S> {
    inner: T,
    size: S,
    phase: Phase,
}

/// The first action for a write of `len` bytes that found slicing `disabled` or not and then found
/// the slice size to be `size`.
pub open spec fn write_plan<E>(phase: Phase, disabled: bool, size: usize, len: nat) -> WriteAction<
    E,
> {
    if len == 0 {
        WriteAction::Forward
    } else {
        match phase {
            Phase::Flushing(_) => WriteAction::Flush,
            Phase::Writing => if disabled {
                WriteAction::Forward
            } else if size == 0 {
                WriteAction::Return(IoPoll::Ready(0))
            } else if len <= size {
                WriteAction::Write(len as usize)
            } else {
                WriteAction::Write(size)
            },
        }
    }
}

/// The phase once the inner write has answered.
pub open spec fn phase_after_write<E>(phase: Phase, reply: IoPoll<usize, E>) -> Phase {
    match reply {
        IoPoll::Ready(written) => Phase::Flushing(written),
        _ => phase,
    }
}

/// The action once the inner write has answered.
pub open spec fn action_after_write<E>(reply: IoPoll<usize, E>) -> WriteAction<E> {
    match reply {
        IoPoll::Ready(_) => WriteAction::Flush,
        _ => WriteAction::Return(reply),
    }
}

/// The phase once the inner flush has answered.
pub open spec fn phase_after_flush<E>(phase: Phase, reply: IoPoll<(), E>) -> Phase {
    match reply {
        IoPoll::Ready(()) => Phase::Writing,
        _ => phase,
    }
}

/// What a write that has got as far as flushing `written` bytes returns once the flush has
/// answered.
pub open spec fn result_after_flush<E>(written: usize, reply: IoPoll<(), E>) -> IoPoll<usize, E> {
    match reply {
        IoPoll::Pending => IoPoll::Pending,
        IoPoll::Failed(error) => IoPoll::Failed(error),
        IoPoll::Ready(()) => IoPoll::Ready(written),
    }
}

impl<T, S> SlicedWriter<T, S> {
    /// The inner writer.
    pub closed spec fn inner(&self) -> T {
        self.inner
    }

    /// The size provider.
    pub closed spec fn budget(&self) -> S {
        self.size
    }

    /// Where the current write stands.
    pub closed spec fn phase(&self) -> Phase {
        self.phase
    }

    /// Wraps an inner writer with a slice-size provider.
    ///
    /// The size can be adjusted while the writer is in use if the provider is a shared one, such
    /// as an `Arc<DynamicSize>`.
    pub fn new(inner: T, size: S) -> (writer: Self)
        ensures
            writer.inner() == inner,
            writer.budget() == size,
            writer.phase() == Phase::Writing,
    {
        Self { inner, size, phase: Phase::Writing }
    }

    /// Access to the inner writer.
    pub fn get_ref(&self) -> (inner: &T)
        ensures
            *inner == self.inner(),
    {
        &self.inner
    }

    /// Mutable access to the inner writer, on which the planned operations are polled.
    pub fn get_mut(&mut self) -> (inner: &mut T)
        ensures
            *inner == old(self).inner(),
            final(self).inner() == *final(inner),
            final(self).budget() == old(self).budget(),
            final(self).phase() == old(self).phase(),
    {
        &mut self.inner
    }

    /// Plans a write of `len` bytes that found slicing `disabled` or not and then found the slice
    /// size to be `size`.
    pub fn plan_write<E>(&self, disabled: bool, size: usize, len: usize) -> (action: WriteAction<E>)
        ensures
            action == write_plan::<E>(self.phase(), disabled, size, len as nat),
            len == 0 ==> action is Forward,
            len > 0 && self.phase() is Flushing ==> action is Flush,
            len > 0 && self.phase() is Writing && disabled ==> action is Forward,
            len > 0 && self.phase() is Writing && !disabled && size == 0 ==> action
                == WriteAction::<E>::Return(IoPoll::Ready(0)),
            len > 0 && self.phase() is Writing && !disabled && size > 0 ==> action
                == WriteAction::<E>::Write(
                if len <= size {
                    len
                } else {
                    size
                },
            ),
    {
        if len == 0 {
            return WriteAction::Forward;
        }
        match self.phase {
            Phase::Writing => {
                if disabled {
                    return WriteAction::Forward;
                }
                let chunk_len: usize = if len <= size {
                    len
                } else {
                    size
                };
                if chunk_len == 0 {
                    WriteAction::Return(IoPoll::Ready(0))
                } else {
                    WriteAction::Write(chunk_len)
                }
            },
            Phase::Flushing(_) => WriteAction::Flush,
        }
    }

    /// Takes what an inner write came back with, for a write or a vectored write.
    ///
    /// The bytes written, few as they may be, are flushed next. An inner write that is pending or
    /// has failed leaves the adapter as it was.
    pub fn after_write<E>(&mut self, reply: IoPoll<usize, E>) -> (action: WriteAction<E>)
        ensures
            final(self).phase() == phase_after_write(old(self).phase(), reply),
            action == action_after_write(reply),
            match reply {
                IoPoll::Ready(written) => action is Flush && final(self).phase() == Phase::Flushing(
                    written,
                ),
                _ => action == WriteAction::<E>::Return(reply) && final(self).phase() == old(
                    self
                ).phase(),
            },
            final(self).inner() == old(self).inner(),
            final(self).budget() == old(self).budget(),
    {
        match reply {
            IoPoll::Pending => WriteAction::Return(IoPoll::Pending),
            IoPoll::Failed(error) => WriteAction::Return(IoPoll::Failed(error)),
            IoPoll::Ready(written) => {
                self.phase = Phase::Flushing(written);
                WriteAction::Flush
            },
        }
    }

    /// Takes what an inner flush came back with and returns what the write returns.
    ///
    /// Only a completed flush ends the segment, which is then reported with the count that the
    /// inner write gave.
    pub fn after_flush<E>(&mut self, reply: IoPoll<(), E>) -> (result: IoPoll<usize, E>)
        requires
            old(self).phase() is Flushing,
        ensures
            final(self).phase() == phase_after_flush(old(self).phase(), reply),
            result == result_after_flush(old(self).phase()->Flushing_0, reply),
            match reply {
                IoPoll::Ready(()) => {
                    &&& result == IoPoll::<usize, E>::Ready(old(self).phase()->Flushing_0)
                    &&& final(self).phase() == Phase::Writing
                },
                IoPoll::Pending => {
                    &&& result == IoPoll::<usize, E>::Pending
                    &&& final(self).phase() == old(self).phase()
                },
                IoPoll::Failed(error) => {
                    &&& result == IoPoll::<usize, E>::Failed(error)
                    &&& final(self).phase() == old(self).phase()
                },
            },
            final(self).inner() == old(self).inner(),
            final(self).budget() == old(self).budget(),
    {
        let written: usize = match self.phase {
            Phase::Flushing(written) => written,
            Phase::Writing => 0,
        };
        match reply {
            IoPoll::Pending => IoPoll::Pending,
            IoPoll::Failed(error) => IoPoll::Failed(error),
            IoPoll::Ready(()) => {
                self.phase = Phase::Writing;
                IoPoll::Ready(written)
            },
        }
    }

    /// How many bytes the inner writer has taken that are still to be flushed, if a flush is due.
    pub fn flush_due(&self) -> (due: Option<usize>)
        ensures
            due == match self.phase() {
                Phase::Flushing(written) => Some(written),
                Phase::Writing => None,
            },
    {
        match self.phase {
            Phase::Flushing(written) => Some(written),
            Phase::Writing => None,
        }
    }
}

impl<T, S: Size> SlicedWriter<T, S> {
    /// Starts a poll of a write of `buf`, or takes up again one whose flush was pending.
    ///
    /// The size provider is asked twice: whether slicing is off, and if not, for the size. A flush
    /// that is due comes first, even if slicing has been turned off meanwhile.
    pub fn poll_write<E>(&self, buf: &[u8]) -> (action: WriteAction<E>)
        ensures
            exists|first: usize, second: usize| #[trigger]
                self.budget().may_report(first) && #[trigger] self.budget().may_report(second)
                    && action == write_plan::<E>(
                    self.phase(),
                    first == 0,
                    second,
                    buf@.len(),
                ) && (buf@.len() > 0 && self.phase() is Writing ==> if first == 0 {
                    action is Forward
                } else if second == 0 {
                    action == WriteAction::<E>::Return(IoPoll::Ready(0))
                } else {
                    action == WriteAction::<E>::Write(
                        if buf@.len() <= second {
                            buf@.len() as usize
                        } else {
                            second
                        },
                    )
                }),
            buf@.len() == 0 ==> action is Forward,
            buf@.len() > 0 && self.phase() is Flushing ==> action is Flush,
    {
        let disabled = self.size.is_zero();
        let ghost first = choose|size: usize| #[trigger]
            self.size.may_report(size) && disabled == (size == 0);
        if disabled || buf.len() == 0 {
            assert(self.budget().may_report(first));
            return self.plan_write(disabled, 0, buf.len());
        }
        let size: usize = self.size.size();
        assert(self.budget().may_report(first) && self.budget().may_report(size));
        self.plan_write(disabled, size, buf.len())
    }

    /// Starts a poll of a vectored write of `bufs`, or takes up again one whose flush was pending.
    ///
    /// At most the current slice size in bytes is handed to the inner writer, as the first slices
    /// of `bufs`, the last of them shortened where it must be. A flush that is due comes first,
    /// even if slicing has been turned off meanwhile.
    pub fn poll_write_vectored<'b>(&self, bufs: &'b [IoSlice<'_>]) -> (action: VectoredAction<'b>)
        ensures
            exists|first: usize, second: usize| #[trigger]
                self.budget().may_report(first) && #[trigger] self.budget().may_report(second)
                    && if bufs@.len() == 0 {
                    action is Forward
                } else {
                    match self.phase() {
                        Phase::Flushing(_) => action is Flush,
                        Phase::Writing => if first == 0 {
                            action is Forward
                        } else {
                            action matches VectoredAction::Write(list) && crate::iovec::is_limited(
                                crate::iovec::slice_bytes(bufs@),
                                second as nat,
                                list@,
                            ) && list@.flatten() == crate::iovec::slice_bytes(bufs@).flatten().take(
                                if crate::iovec::slice_bytes(bufs@).flatten().len() <= second {
                                    crate::iovec::slice_bytes(bufs@).flatten().len() as int
                                } else {
                                    second as int
                                },
                            )
                        },
                    }
                },
    {
        let disabled = self.size.is_zero();
        let ghost first = choose|size: usize| #[trigger]
            self.size.may_report(size) && disabled == (size == 0);
        assert(self.budget().may_report(first));
        if bufs.len() == 0 {
            return VectoredAction::Forward;
        }
        match self.phase {
            Phase::Writing => {
                if disabled {
                    return VectoredAction::Forward;
                }
                let size: usize = self.size.size();
                assert(self.budget().may_report(size));
                VectoredAction::Write(limit_io_slices(bufs, size))
            },
            Phase::Flushing(_) => VectoredAction::Flush,
        }
    }
}

/// One whole poll that writes a segment, unless one is still to be flushed, and flushes it: the
/// phase it leaves and what it returns, where the inner writer answers a write, if one is polled,
/// with `write` and a flush, if one is polled, with `flush`.
///
/// Every poll of a vectored write is such a poll, unless it forwards all the buffers.
pub open spec fn segment_poll<E>(
    phase: Phase,
    write: IoPoll<usize, E>,
    flush: IoPoll<(), E>,
) -> (Phase, IoPoll<usize, E>) {
    match phase {
        Phase::Flushing(written) => (
            phase_after_flush(phase, flush),
            result_after_flush(written, flush),
        ),
        Phase::Writing => {
            let between = phase_after_write(phase, write);
            match action_after_write(write) {
                WriteAction::Return(result) => (between, result),
                _ => (
                    phase_after_flush(between, flush),
                    result_after_flush(between->Flushing_0, flush),
                ),
            }
        },
    }
}

/// One whole poll of a write of `len` bytes that found slicing `disabled` or not and then found the
/// slice size to be `size`.
pub open spec fn write_poll<E>(
    phase: Phase,
    disabled: bool,
    size: usize,
    len: nat,
    write: IoPoll<usize, E>,
    flush: IoPoll<(), E>,
) -> (Phase, IoPoll<usize, E>) {
    match write_plan::<E>(phase, disabled, size, len) {
        WriteAction::Forward => (phase, write),
        WriteAction::Return(result) => (phase, result),
        _ => segment_poll(phase, write, flush),
    }
}

/// No write hands the inner writer more than the slice size, nor more than there is, nor nothing.
pub proof fn law_segment_is_within_size<E>(phase: Phase, disabled: bool, size: usize, len: nat)
    ensures
        write_plan::<E>(phase, disabled, size, len) matches WriteAction::Write(segment) ==> 0
            < segment <= size && segment <= len,
{
}

/// A size of `0` turns the adapter into a pass-through: every write is forwarded as it is, and no
/// flush is forced, but for a flush that is due, which comes first.
pub proof fn law_zero_size_forwards<E>(phase: Phase, size: usize, len: nat)
    ensures
        phase == Phase::Writing || len == 0 ==> write_plan::<E>(phase, true, size, len)
            == WriteAction::<E>::Forward,
        phase is Flushing && len > 0 ==> write_plan::<E>(phase, true, size, len)
            == WriteAction::<E>::Flush,
{
}

/// A segment is reported as written only once a flush has completed, and with the count that the
/// inner write gave, whether slicing is on or has been turned off meanwhile. Only a write that
/// begins with slicing off is reported as the inner writer answers it.
pub proof fn law_flush_completes_before_return<E>(
    phase: Phase,
    disabled: bool,
    size: usize,
    len: nat,
    write: IoPoll<usize, E>,
    flush: IoPoll<(), E>,
)
    requires
        disabled || size > 0,
        len > 0,
    ensures
        ({
            let (after, result) = write_poll(phase, disabled, size, len, write, flush);
            if disabled && phase == Phase::Writing {
                after == Phase::Writing && result == write
            } else {
                result matches IoPoll::Ready(count) ==> {
                    &&& flush is Ready
                    &&& after == Phase::Writing
                    &&& phase == Phase::Flushing(count) || phase == Phase::Writing && write
                        == IoPoll::<usize, E>::Ready(count)
                }
            }
        }),
{
}

/// What is true of a write is true of a vectored write: a segment is reported as written only once
/// a flush has completed, and an inner write that is pending or has failed leaves no trace.
pub proof fn law_vectored_segment_is_flushed_too<E>(
    phase: Phase,
    write: IoPoll<usize, E>,
    flush: IoPoll<(), E>,
)
    ensures
        ({
            let (after, result) = segment_poll(phase, write, flush);
            &&& result matches IoPoll::Ready(count) ==> {
                &&& flush is Ready
                &&& after == Phase::Writing
                &&& phase == Phase::Flushing(count) || phase == Phase::Writing && write == IoPoll::<
                    usize,
                    E,
                >::Ready(count)
            }
            &&& phase == Phase::Writing && !(write is Ready) ==> after == phase && result == write
        }),
{
}

/// A flush that is pending or has failed is taken up again by the next poll, which flushes and
/// does not write the bytes a second time, whatever the slice size has become.
pub proof fn law_unfinished_flush_is_resumed<E>(
    size: usize,
    len: nat,
    written: usize,
    flush: IoPoll<(), E>,
    next_disabled: bool,
    next_size: usize,
    next_len: nat,
)
    requires
        size > 0,
        len > 0,
        next_len > 0,
        !(flush is Ready),
    ensures
        ({
            let (after, _) = write_poll(
                Phase::Writing,
                false,
                size,
                len,
                IoPoll::Ready(written),
                flush,
            );
            &&& after == Phase::Flushing(written)
            &&& write_plan::<E>(after, next_disabled, next_size, next_len) == WriteAction::<
                E,
            >::Flush
        }),
{
}

/// An inner write that is pending or has failed is what the poll returns, and leaves no trace.
pub proof fn law_unsuccessful_write_changes_nothing<E>(
    disabled: bool,
    size: usize,
    len: nat,
    write: IoPoll<usize, E>,
    flush: IoPoll<(), E>,
)
    requires
        disabled || size > 0,
        len > 0,
        !(write is Ready),
    ensures
        write_poll(Phase::Writing, disabled, size, len, write, flush) == (Phase::Writing, write),
{
}

/// The segments in which a message goes out when the inner writer takes all it is offered and
/// the caller writes on until nothing is left.
pub open spec fn segments(message: Seq<u8>, size: usize) -> Seq<Seq<u8>>
    decreases message.len(),
{
    match write_plan::<()>(Phase::Writing, false, size, message.len()) {
        WriteAction::Write(segment) => seq![message.take(segment as int)] + segments(
            message.skip(segment as int),
            size,
        ),
        _ => seq![],
    }
}

/// A message goes out in segments of exactly the slice size, but for a shorter last one, and the
/// segments put together are the message.
pub proof fn law_message_goes_out_in_full_segments(message: Seq<u8>, size: usize)
    requires
        size > 0,
        message.len() <= usize::MAX,
    ensures
        segments(message, size).flatten() == message,
        forall|i: int|
            0 <= i < segments(message, size).len() - 1 ==> (#[trigger] segments(
                message,
                size,
            )[i]).len() == size,
        message.len() > 0 ==> 0 < segments(message, size).last().len() <= size,
        message.len() == 0 ==> segments(message, size).len() == 0,
    decreases message.len(),
{
    if message.len() == 0 {
        assert(segments(message, size).flatten() =~= message);
    } else {
        let segment = if message.len() <= size {
            message.len() as int
        } else {
            size as int
        };
        let head = message.take(segment);
        let rest = message.skip(segment);
        law_message_goes_out_in_full_segments(rest, size);
        let all = segments(message, size);
        assert(all =~= seq![head] + segments(rest, size));
        assert(all.drop_first() =~= segments(rest, size));
        assert(head + rest =~= message);
        if rest.len() == 0 {
            assert(all.last() == head);
        } else {
            assert(all.last() == segments(rest, size).last());
            assert forall|i: int| 0 <= i < all.len() - 1 implies (#[trigger] all[i]).len()
                == size by {
                if i > 0 {
                    assert(all[i] == segments(rest, size)[i - 1]);
                }
            }
        }
    }
}

/// A knob that is only ever set to one size reports that size.
pub proof fn law_size_reads_back(knob: DynamicSize, size: usize, read: usize)
    requires
        forall|other: usize| #[trigger] knob.sizes().contains(other) ==> other == size,
        knob.may_report(read),
    ensures
        read == size,
{
}

/// Progress: once the inner writer has taken bytes and their flush has completed, the write reports
/// them, in the same poll or in the one that finishes the flush, and the adapter is ready for the
/// next write.
pub proof fn law_accepted_segment_is_reported<E>(
    disabled: bool,
    size: usize,
    len: nat,
    written: usize,
    write: IoPoll<usize, E>,
)
    requires
        len > 0,
    ensures
        size > 0 ==> write_poll(
            Phase::Writing,
            false,
            size,
            len,
            IoPoll::<usize, E>::Ready(written),
            IoPoll::Ready(()),
        ) == (Phase::Writing, IoPoll::<usize, E>::Ready(written)),
        write_poll(
            Phase::Flushing(written),
            disabled,
            size,
            len,
            write,
            IoPoll::<(), E>::Ready(()),
        ) == (Phase::Writing, IoPoll::<usize, E>::Ready(written)),
        segment_poll(
            Phase::Writing,
            IoPoll::<usize, E>::Ready(written),
            IoPoll::Ready(()),
        ) == (Phase::Writing, IoPoll::<usize, E>::Ready(written)),
        segment_poll(Phase::Flushing(written), write, IoPoll::<(), E>::Ready(())) == (
            Phase::Writing,
            IoPoll::<usize, E>::Ready(written),
        ),
{
}

/// A flush that is pending or has failed is what the write returns, and the bytes stay to be
/// flushed.
pub proof fn law_unfinished_flush_is_returned<E>(written: usize, error: E, write: IoPoll<usize, E>)
    ensures
        segment_poll(Phase::Flushing(written), write, IoPoll::<(), E>::Pending) == (
            Phase::Flushing(written),
            IoPoll::<usize, E>::Pending,
        ),
        segment_poll(Phase::Flushing(written), write, IoPoll::Failed(error)) == (
            Phase::Flushing(written),
            IoPoll::<usize, E>::Failed(error),
        ),
{
}

/// A write with slicing on hands the inner writer all of its bytes if they fit into a segment, else
/// exactly a segment.
pub proof fn law_segment_is_as_large_as_it_may_be<E>(size: usize, len: nat)
    requires
        0 < len <= usize::MAX,
        size > 0,
    ensures
        len <= size ==> write_plan::<E>(Phase::Writing, false, size, len) == WriteAction::<
            E,
        >::Write(len as usize),
        len >= size ==> write_plan::<E>(Phase::Writing, false, size, len) == WriteAction::<
            E,
        >::Write(size),
{
}

/// A fixed size reports itself, and nothing else.
pub proof fn law_fixed_size_reports_itself(fixed: usize, read: usize)
    ensures
        fixed.may_report(read) <==> read == fixed,
{
}

/// What a knob may report is what its cell holds.
proof fn lemma_sizes_are_held_by_the_cell(knob: DynamicSize, size: usize)
    ensures
        knob.may_report(size) <==> crate::cell::usize_cell_values(knob.size).contains(size),
{
}

} // verus!
