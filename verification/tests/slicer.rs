//! Sliced writes, driven over in-memory streams.

use std::io::{self, IoSlice};
use std::pin::Pin;
use std::task::{Context, Poll};
use tokio::io::{
    duplex, AsyncBufRead, AsyncBufReadExt, AsyncRead, AsyncReadExt, AsyncWrite, AsyncWriteExt,
    BufReader, BufWriter, ReadBuf,
};
use trixter::iovec::limit_io_slices;
use trixter::poll::IoPoll;
use trixter::slicer::{DynamicSize, Size, SlicedWriter, VectoredAction, WriteAction};

/// Performs on the inner stream what the adapter decides.
struct Sliced<T, S>(SlicedWriter<T, S>);

impl<T, S> Sliced<T, S> {
    fn new(inner: T, size: S) -> Self {
        Sliced(SlicedWriter::new(inner, size))
    }
}

fn reply<T>(poll: Poll<io::Result<T>>) -> IoPoll<T, io::Error> {
    match poll {
        Poll::Pending => IoPoll::Pending,
        Poll::Ready(Ok(value)) => IoPoll::Ready(value),
        Poll::Ready(Err(error)) => IoPoll::Failed(error),
    }
}

fn outcome<T>(reply: IoPoll<T, io::Error>) -> Poll<io::Result<T>> {
    match reply {
        IoPoll::Pending => Poll::Pending,
        IoPoll::Ready(value) => Poll::Ready(Ok(value)),
        IoPoll::Failed(error) => Poll::Ready(Err(error)),
    }
}

fn finish<T: AsyncWrite + Unpin, S>(
    writer: &mut SlicedWriter<T, S>,
    cx: &mut Context<'_>,
    action: WriteAction<io::Error>,
) -> Poll<io::Result<usize>> {
    match action {
        WriteAction::Flush => {
            let flushed = reply(Pin::new(writer.get_mut()).poll_flush(cx));
            outcome(writer.after_flush(flushed))
        }
        WriteAction::Return(result) => outcome(result),
        _ => unreachable!("a write is followed by a flush or ends the poll"),
    }
}

impl<T: AsyncWrite + Unpin, S: Size + Unpin> AsyncWrite for Sliced<T, S> {
    fn poll_write(
        self: Pin<&mut Self>,
        cx: &mut Context<'_>,
        buf: &[u8],
    ) -> Poll<io::Result<usize>> {
        let writer = &mut self.get_mut().0;
        match writer.poll_write(buf) {
            WriteAction::Forward => Pin::new(writer.get_mut()).poll_write(cx, buf),
            WriteAction::Write(len) => {
                let written = reply(Pin::new(writer.get_mut()).poll_write(cx, &buf[..len]));
                let next = writer.after_write(written);
                finish(writer, cx, next)
            }
            action => finish(writer, cx, action),
        }
    }

    fn poll_flush(self: Pin<&mut Self>, cx: &mut Context<'_>) -> Poll<io::Result<()>> {
        Pin::new(self.get_mut().0.get_mut()).poll_flush(cx)
    }

    fn poll_shutdown(self: Pin<&mut Self>, cx: &mut Context<'_>) -> Poll<io::Result<()>> {
        Pin::new(self.get_mut().0.get_mut()).poll_shutdown(cx)
    }

    fn is_write_vectored(&self) -> bool {
        self.0.get_ref().is_write_vectored()
    }

    fn poll_write_vectored(
        self: Pin<&mut Self>,
        cx: &mut Context<'_>,
        bufs: &[IoSlice<'_>],
    ) -> Poll<io::Result<usize>> {
        let writer = &mut self.get_mut().0;
        match writer.poll_write_vectored(bufs) {
            VectoredAction::Forward => Pin::new(writer.get_mut()).poll_write_vectored(cx, bufs),
            VectoredAction::Write(list) => {
                let inner = Pin::new(writer.get_mut());
                let written = reply(inner.poll_write_vectored(cx, list.as_slices()));
                let next = writer.after_write(written);
                finish(writer, cx, next)
            }
            VectoredAction::Flush => finish(writer, cx, WriteAction::Flush),
        }
    }
}

impl<T: AsyncRead + Unpin, S: Unpin> AsyncRead for Sliced<T, S> {
    fn poll_read(
        self: Pin<&mut Self>,
        cx: &mut Context<'_>,
        buf: &mut ReadBuf<'_>,
    ) -> Poll<io::Result<()>> {
        Pin::new(self.get_mut().0.get_mut()).poll_read(cx, buf)
    }
}

impl<T: AsyncBufRead + Unpin, S: Unpin> AsyncBufRead for Sliced<T, S> {
    fn poll_fill_buf(self: Pin<&mut Self>, cx: &mut Context<'_>) -> Poll<io::Result<&[u8]>> {
        Pin::new(self.get_mut().0.get_mut()).poll_fill_buf(cx)
    }

    fn consume(self: Pin<&mut Self>, amt: usize) {
        Pin::new(self.get_mut().0.get_mut()).consume(amt)
    }
}

fn run<F: std::future::Future>(future: F) -> F::Output {
    let runtime = tokio::runtime::Builder::new_current_thread().build().unwrap();
    runtime.block_on(future)
}

/// A tiny sink that takes writes in part and counts the calls.
#[derive(Default)]
struct LimitedSink {
    limit: usize,
    written: Vec<u8>,
    flushed: usize,
    shutdowns: usize,
    empty_write_calls: usize,
    advertise_vectored: bool,
    pending_flushes: usize,
    refuse: bool,
}

impl LimitedSink {
    fn with_limit(limit: usize) -> Self {
        Self {
            limit,
            ..Self::default()
        }
    }

    fn with_limit_vectored(limit: usize, advertise_vectored: bool) -> Self {
        Self {
            limit,
            advertise_vectored,
            ..Self::default()
        }
    }
}

impl AsyncWrite for LimitedSink {
    fn poll_write(
        mut self: Pin<&mut Self>,
        _cx: &mut Context<'_>,
        buf: &[u8],
    ) -> Poll<io::Result<usize>> {
        if self.refuse {
            return Poll::Ready(Err(io::Error::other("refused")));
        }
        if buf.is_empty() {
            self.empty_write_calls += 1;
            return Poll::Ready(Ok(0));
        }
        let n = buf.len().min(self.limit);
        self.written.extend_from_slice(&buf[..n]);
        Poll::Ready(Ok(n))
    }

    fn poll_write_vectored(
        mut self: Pin<&mut Self>,
        _cx: &mut Context<'_>,
        bufs: &[IoSlice<'_>],
    ) -> Poll<io::Result<usize>> {
        let mut remaining = self.limit;
        let mut n = 0;
        for s in bufs {
            if remaining == 0 {
                break;
            }
            let take = s.len().min(remaining);
            self.written.extend_from_slice(&s[..take]);
            remaining -= take;
            n += take;
        }
        Poll::Ready(Ok(n))
    }

    fn is_write_vectored(&self) -> bool {
        self.advertise_vectored
    }

    fn poll_flush(mut self: Pin<&mut Self>, cx: &mut Context<'_>) -> Poll<io::Result<()>> {
        if self.pending_flushes > 0 {
            self.pending_flushes -= 1;
            cx.waker().wake_by_ref();
            return Poll::Pending;
        }
        self.flushed += 1;
        Poll::Ready(Ok(()))
    }

    fn poll_shutdown(mut self: Pin<&mut Self>, _cx: &mut Context<'_>) -> Poll<io::Result<()>> {
        self.shutdowns += 1;
        Poll::Ready(Ok(()))
    }
}

#[test]
fn unlimited_size_pass_through() {
    run(async {
        let (mut w, mut r) = duplex(64);
        let mut sw = Sliced::new(&mut w, 0usize);
        sw.write_all(b"abc").await.unwrap();
        sw.flush().await.unwrap();
        let mut buf = [0u8; 3];
        r.read_exact(&mut buf).await.unwrap();
        assert_eq!(&buf, b"abc");
    });
}

#[test]
fn fixed_slices_flush_after_each_segment() {
    run(async {
        let (w, mut r) = duplex(64);
        let inner = BufWriter::new(w);
        let mut sw = Sliced::new(inner, 4usize);

        let n1 = sw.write(b"abcdefghij").await.unwrap();
        assert_eq!(n1, 4);
        let mut buf = [0u8; 4];
        r.read_exact(&mut buf).await.unwrap();
        assert_eq!(&buf, b"abcd");

        let n2 = sw.write(b"efghij").await.unwrap();
        assert_eq!(n2, 4);
        let mut buf2 = [0u8; 4];
        r.read_exact(&mut buf2).await.unwrap();
        assert_eq!(&buf2, b"efgh");
    });
}

#[test]
fn vectored_respects_slice_size() {
    run(async {
        let (mut w, mut r) = duplex(128);
        let mut sw = Sliced::new(&mut w, 5usize);
        let a = IoSlice::new(b"hello");
        let b = IoSlice::new(b"world");
        let n = sw.write_vectored(&[a, b]).await.unwrap();
        assert!(n <= 5);
        sw.flush().await.unwrap();

        let mut buf = vec![0u8; n];
        r.read_exact(&mut buf).await.unwrap();
        assert_eq!(buf, b"hello"[..n].to_vec());
    });
}

#[test]
fn dynamic_size_runtime_update() {
    run(async {
        let (mut w, mut r) = duplex(64);
        let size = DynamicSize::new(2);
        let mut sw = Sliced::new(&mut w, size.clone());

        let n1 = sw.write(b"xyz").await.unwrap();
        assert_eq!(n1, 2);
        size.set(0);
        let n2 = sw.write(&b"xyz"[2..]).await.unwrap();
        assert!(n2 >= 1);
        sw.flush().await.unwrap();

        let mut buf = [0u8; 3];
        r.read_exact(&mut buf).await.unwrap();
        assert_eq!(&buf, b"xyz");
    });
}

#[test]
fn vectored_cross_boundary_flushes() {
    run(async {
        let (w, mut r) = duplex(64);
        let inner = BufWriter::new(w);
        let mut sw = Sliced::new(inner, 7usize);

        let a = IoSlice::new(b"hello");
        let b = IoSlice::new(b"world");
        let n = sw.write_vectored(&[a, b]).await.unwrap();
        assert_eq!(n, 7, "should write up to the slice limit");

        let mut chunk = [0u8; 7];
        r.read_exact(&mut chunk).await.unwrap();
        assert_eq!(
            &chunk, b"hellowo",
            "first chunk must be flushed and visible"
        );

        let n2 = sw.write_vectored(&[IoSlice::new(b"rld")]).await.unwrap();
        assert_eq!(n2, 3);
        let mut rest = [0u8; 3];
        r.read_exact(&mut rest).await.unwrap();
        assert_eq!(&rest, b"rld");
    });
}

#[test]
fn zero_size_disables_slicing_for_vectored() {
    run(async {
        let (mut w, mut r) = duplex(128);
        let mut sw = Sliced::new(&mut w, 0usize);

        let a = IoSlice::new(b"foo");
        let b = IoSlice::new(b"barbaz");
        let n = sw.write_vectored(&[a, b]).await.unwrap();
        sw.flush().await.unwrap();

        let mut buf = vec![0u8; n];
        r.read_exact(&mut buf).await.unwrap();
        assert_eq!(&buf, b"foobarbaz");
    });
}

#[test]
fn empty_write_returns_zero_and_does_not_flush() {
    let mut sink = LimitedSink::with_limit(64);
    run(async {
        let mut sw = Sliced::new(&mut sink, 8usize);
        let n = sw.write(&[]).await.unwrap();
        assert_eq!(n, 0);
    });
    assert_eq!(sink.empty_write_calls, 1);
    assert_eq!(
        sink.flushed, 0,
        "no flush should be issued for empty writes"
    );
    assert!(sink.written.is_empty());
}

#[test]
fn partial_inner_write_is_respected_and_flushed() {
    let mut sink = LimitedSink::with_limit(3);
    run(async {
        let mut sw = Sliced::new(&mut sink, 10usize);
        let n = sw.write(b"abcdef").await.unwrap();
        assert_eq!(n, 3, "wrapper must return inner's reported write size");
    });
    assert_eq!(sink.written, b"abc");
    assert_eq!(sink.flushed, 1, "flush must be called after the write");
}

#[test]
fn delegates_is_write_vectored() {
    let mut sink = LimitedSink::with_limit_vectored(8, true);
    let sw = Sliced::new(&mut sink, 4usize);
    assert!(
        sw.is_write_vectored(),
        "should reflect inner writer capability"
    );
}

#[test]
fn many_iovecs_size_one_only_first_byte_written() {
    let mut sink = LimitedSink::with_limit_vectored(1, true);
    run(async {
        let mut sw = Sliced::new(&mut sink, 1usize);
        let bufs: Vec<IoSlice<'_>> = vec![vec![IoSlice::new(b"ABC"), IoSlice::new(b"DEF")]; 50]
            .into_iter()
            .flatten()
            .collect();
        let n = sw.write_vectored(&bufs).await.unwrap();
        assert_eq!(n, 1);
    });
    assert_eq!(sink.written, b"A");
    assert_eq!(sink.flushed, 1, "flush after the limited vectored write");
}

#[test]
fn vectored_partial_inner_write_flushes() {
    let mut sink = LimitedSink::with_limit_vectored(3, true);
    run(async {
        let mut sw = Sliced::new(&mut sink, 8usize);
        let a = IoSlice::new(b"hello");
        let b = IoSlice::new(b"world");
        let n = sw.write_vectored(&[a, b]).await.unwrap();
        assert_eq!(n, 3, "should surface the inner writer's partial result");
    });
    assert_eq!(sink.written, b"hel");
    assert_eq!(sink.flushed, 1, "flush must follow the partial inner write");
}

#[test]
fn async_bufread_passthrough_works() {
    run(async {
        let (mut w, r) = duplex(64);
        let br = BufReader::new(r);
        let mut sw = Sliced::new(br, 4usize);

        w.write_all(b"hello\nworld").await.unwrap();
        w.shutdown().await.unwrap();

        let mut line = String::new();
        let n = sw.read_line(&mut line).await.unwrap();
        assert_eq!(n, 6);
        assert_eq!(line, "hello\n");
    });
}

#[test]
fn shutdown_delegates() {
    run(async {
        let (mut w, mut r) = duplex(16);
        let mut sw = Sliced::new(&mut w, 4usize);

        sw.write_all(b"hi").await.unwrap();
        sw.shutdown().await.unwrap();

        let mut buf = [0u8; 2];
        r.read_exact(&mut buf).await.unwrap();
        assert_eq!(&buf, b"hi");
    });
}

#[test]
fn dynamic_size_after_first_write_vectored_and_scalar() {
    run(async {
        let (w, mut r) = duplex(64);
        let size = DynamicSize::new(2);
        let inner = BufWriter::new(w);
        let mut sw = Sliced::new(inner, size.clone());

        let n1 = sw.write(b"abcdef").await.unwrap();
        assert_eq!(n1, 2);
        let mut first = [0u8; 2];
        r.read_exact(&mut first).await.unwrap();
        assert_eq!(&first, b"ab");

        size.set(3);
        let a = IoSlice::new(b"cde");
        let b = IoSlice::new(b"fgh");
        let n2 = sw.write_vectored(&[a, b]).await.unwrap();
        assert_eq!(n2, 3);

        let mut next = [0u8; 3];
        r.read_exact(&mut next).await.unwrap();
        assert_eq!(&next, b"cde");
    });
}

#[test]
fn message_goes_out_in_full_segments() {
    let mut sink = LimitedSink::with_limit(64);
    run(async {
        let mut sw = Sliced::new(&mut sink, 4usize);
        sw.write_all(b"abcdefghij").await.unwrap();
    });
    assert_eq!(sink.written, b"abcdefghij");
    assert_eq!(sink.flushed, 3, "segments of 4, 4 and 2 bytes");
}

#[test]
fn pending_flush_is_resumed_without_a_second_write() {
    let mut sink = LimitedSink::with_limit(64);
    sink.pending_flushes = 2;
    run(async {
        let mut sw = Sliced::new(&mut sink, 4usize);
        assert_eq!(sw.write(b"abcdef").await.unwrap(), 4);
    });
    assert_eq!(sink.written, b"abcd");
    assert_eq!(sink.flushed, 1);
}

#[test]
fn due_flush_is_finished_after_slicing_is_turned_off() {
    let mut sink = LimitedSink::with_limit(64);
    sink.pending_flushes = 1;
    let size = DynamicSize::new(4);
    run(async {
        let mut sw = Sliced::new(&mut sink, size.clone());
        let mut cx = Context::from_waker(futures::task::noop_waker_ref());
        assert!(Pin::new(&mut sw).poll_write(&mut cx, b"abcdef").is_pending());
        assert_eq!(sw.0.flush_due(), Some(4));
        size.set(0);
        assert_eq!(sw.write(b"abcdef").await.unwrap(), 4);
        assert_eq!(sw.0.flush_due(), None);
        assert_eq!(sw.write(b"ef").await.unwrap(), 2);
    });
    assert_eq!(sink.written, b"abcdef", "no byte goes out twice");
    assert_eq!(sink.flushed, 1);
}

#[test]
fn due_flush_of_a_vectored_write_is_finished_too() {
    let mut sink = LimitedSink::with_limit_vectored(64, true);
    sink.pending_flushes = 1;
    let size = DynamicSize::new(4);
    run(async {
        let mut sw = Sliced::new(&mut sink, size.clone());
        let mut cx = Context::from_waker(futures::task::noop_waker_ref());
        let bufs = [IoSlice::new(b"abc"), IoSlice::new(b"def")];
        let first = Pin::new(&mut sw).poll_write_vectored(&mut cx, &bufs);
        assert!(first.is_pending());
        size.set(0);
        assert_eq!(sw.write_vectored(&bufs).await.unwrap(), 4);
        assert_eq!(sw.write_vectored(&[IoSlice::new(b"ef")]).await.unwrap(), 2);
    });
    assert_eq!(sink.written, b"abcdef", "no byte goes out twice");
    assert_eq!(sink.flushed, 1);
}

#[test]
fn refused_write_leaves_the_adapter_ready_to_write() {
    let mut sink = LimitedSink::with_limit(64);
    sink.refuse = true;
    run(async {
        let mut sw = Sliced::new(&mut sink, 4usize);
        let error = sw.write(b"abcdef").await.expect_err("refused");
        assert_eq!(error.to_string(), "refused");
        assert_eq!(sw.0.flush_due(), None);
        sw.0.get_mut().refuse = false;
        assert_eq!(sw.write(b"abcdef").await.unwrap(), 4);
    });
    assert_eq!(sink.written, b"abcd");
}

#[test]
fn plan_of_a_write_goes_by_phase_and_size() {
    let mut writer: SlicedWriter<(), usize> = SlicedWriter::new((), 4);
    assert_eq!(writer.poll_write::<()>(b"abcdef"), WriteAction::Write(4));
    assert_eq!(writer.poll_write::<()>(b"ab"), WriteAction::Write(2));
    assert_eq!(writer.poll_write::<()>(b""), WriteAction::Forward);
    assert_eq!(writer.plan_write::<()>(true, 0, 6), WriteAction::Forward);
    assert_eq!(
        writer.plan_write::<()>(false, 0, 6),
        WriteAction::Return(IoPoll::Ready(0))
    );

    assert_eq!(writer.after_write::<()>(IoPoll::Ready(3)), WriteAction::Flush);
    assert_eq!(writer.flush_due(), Some(3));
    assert_eq!(writer.poll_write::<()>(b"abcdef"), WriteAction::Flush);
    assert_eq!(writer.plan_write::<()>(true, 0, 6), WriteAction::Flush);
    assert_eq!(writer.plan_write::<()>(true, 0, 0), WriteAction::Forward);
    assert!(matches!(
        writer.poll_write_vectored(&[IoSlice::new(b"abcdef")]),
        VectoredAction::Flush
    ));
    assert_eq!(writer.after_flush(IoPoll::Failed("full")), IoPoll::Failed("full"));
    assert_eq!(writer.flush_due(), Some(3));
    assert_eq!(writer.after_flush::<()>(IoPoll::Ready(())), IoPoll::Ready(3));
    assert_eq!(writer.flush_due(), None);
}

#[test]
fn dynamic_size_reads_back_what_was_set() {
    let knob = DynamicSize::new(8);
    assert_eq!(knob.size(), 8);
    assert!(!knob.is_zero());
    knob.set(0);
    assert_eq!(knob.size(), 0);
    assert!(knob.is_zero());
    assert!(DynamicSize::default().is_zero());
}

#[test]
fn limited_slices_are_the_first_bytes() {
    let bufs = [
        IoSlice::new(b"ab"),
        IoSlice::new(b""),
        IoSlice::new(b"cde"),
        IoSlice::new(b"f"),
    ];
    let texts = |size: usize| -> Vec<Vec<u8>> {
        limit_io_slices(&bufs, size)
            .as_slices()
            .iter()
            .map(|slice| slice.to_vec())
            .collect()
    };
    assert_eq!(texts(0), Vec::<Vec<u8>>::new());
    assert_eq!(texts(2), vec![b"ab".to_vec()]);
    assert_eq!(
        texts(4),
        vec![b"ab".to_vec(), b"".to_vec(), b"cd".to_vec()]
    );
    assert_eq!(texts(100).concat(), b"abcdef");
}

#[test]
fn limited_list_outgrows_its_inline_space() {
    let bufs: Vec<IoSlice<'_>> = (0..40).map(|_| IoSlice::new(b"xy")).collect();
    let list = limit_io_slices(&bufs, 61);
    assert_eq!(list.as_slices().len(), 31);
    assert_eq!(&*list.as_slices()[30], b"x");
}
