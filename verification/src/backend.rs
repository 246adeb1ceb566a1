//! The destinations, and what one poll of each reports.
//!
//! A [`Report`] can be made in this file only, and each function that makes
//! one says which destination it speaks for and which bytes it was offered.
//! A report in a caller's hands is therefore the unaltered outcome of an
//! operation on that destination with those bytes.
//!
//! The functions marked `external_body`, the `assume_specification` items and
//! the opaque types are taken on trust: each states of one outside function
//! what that function's source shows of every outcome. The rest is verified.

use crate::progress::Progress;
use crate::writer::Destination;
use std::pin::Pin;
use std::task::Context;
use std::task::Poll;
use std::task::Waker;
use tokio::io::AsyncWrite;
use tokio::io::DuplexStream;
use tokio::io::Stderr;
use tokio::io::Stdout;
use tokio::runtime::Handle;
use tokio_util::compat::Compat;
use tokio_util::compat::FuturesAsyncWriteCompatExt;
use tokio_util::compat::TokioAsyncWriteCompatExt;
use vstd::prelude::*;

verus! {

/// The task context that every poll takes: it carries the waker to notify.
#[verifier::external_type_specification]
#[verifier::external_body]
pub struct ExContext<'a>(Context<'a>);

/// `std::task::Waker`, the handle by which a task is woken.
#[verifier::external_type_specification]
#[verifier::external_body]
pub struct ExWaker(Waker);

/// `tokio::runtime::Handle`, a reference to a running Tokio runtime.
#[verifier::external_type_specification]
#[verifier::external_body]
pub struct ExHandle(Handle);

/// `tokio::io::Stdout`, a handle on the process's standard output.
#[verifier::external_type_specification]
#[verifier::external_body]
pub struct ExStdout(Stdout);

/// `tokio::io::Stderr`, a handle on the process's standard error.
#[verifier::external_type_specification]
#[verifier::external_body]
pub struct ExStderr(Stderr);

/// `tokio::io::DuplexStream`, one end of an in-memory pipe.
#[verifier::external_type_specification]
#[verifier::external_body]
pub struct ExDuplexStream(DuplexStream);

/// `tokio_util::compat::Compat`, which turns a writer of one of the two
/// asynchronous I/O trait families into a writer of the other.
#[verifier::external_type_specification]
#[verifier::external_body]
#[verifier::reject_recursive_types(T)]
pub struct ExCompat<T>(Compat<T>);

/// `async_dup::Arc`, a reference-counted pointer to a shared writer.
#[verifier::external_type_specification]
#[verifier::external_body]
#[verifier::reject_recursive_types(T)]
pub struct ExArc<T>(async_dup::Arc<T>);

/// `async_dup::Mutex`, the lock around a shared writer.
#[verifier::external_type_specification]
#[verifier::external_body]
#[verifier::reject_recursive_types(T)]
pub struct ExMutex<T>(async_dup::Mutex<T>);

/// `async_dup::MutexGuard`, which holds the lock until it is dropped.
#[verifier::external_type_specification]
#[verifier::external_body]
#[verifier::reject_recursive_types(T)]
pub struct ExMutexGuard<'a, T>(async_dup::MutexGuard<'a, T>);

/// The write half of a pipe, behind a lock, behind a counted reference.
///
/// A value of this type says which pipe is meant. The bytes in the pipe and
/// the state of the lock are no part of it: two values are equal when they
/// refer to the same pipe.
pub type SharedPipe = Compat<async_dup::Arc<async_dup::Mutex<Compat<DuplexStream>>>>;

/// The lock on a shared pipe, held.
pub type PipeGuard<'a> = async_dup::MutexGuard<'a, Compat<DuplexStream>>;

/// What one poll reported, together with where the report comes from.
pub struct Report<T> {
    progress: Progress<T>,
    origin: Ghost<Destination>,
    offered: Ghost<Seq<u8>>,
}

impl<T> Report<T> {
    /// What the destination reported.
    pub closed spec fn progress(&self) -> Progress<T> {
        self.progress
    }

    /// The destination that was polled.
    pub closed spec fn origin(&self) -> Destination {
        self.origin@
    }

    /// The bytes that the destination was offered: the caller's buffer for a
    /// write, nothing for a flush or a shutdown.
    pub closed spec fn offered(&self) -> Seq<u8> {
        self.offered@
    }

    /// Gives up the report for what the destination reported.
    pub fn into_progress(self) -> (p: Progress<T>)
        ensures
            p == self.progress(),
    {
        self.progress
    }
}

/// `tokio::io::stdout` always returns a handle.
pub assume_specification[ tokio::io::stdout ]() -> (s: Stdout);

/// `tokio::io::stderr` always returns a handle.
pub assume_specification[ tokio::io::stderr ]() -> (s: Stderr);

/// `async_dup::Mutex::new` wraps any value.
pub assume_specification<T>[ async_dup::Mutex::<T>::new ](data: T) -> (m: async_dup::Mutex<T>);

/// `async_dup::Arc::new` wraps any value.
pub assume_specification<T>[ async_dup::Arc::<T>::new ](data: T) -> (a: async_dup::Arc<T>);

/// `Context::waker` hands out the waker of the polling task.
pub assume_specification<'a>[ Context::<'a>::waker ](cx: &Context<'a>) -> (w: &'a Waker);

/// `Waker::wake_by_ref` asks the executor to poll the task again.
pub assume_specification[ Waker::wake_by_ref ](waker: &Waker);

/// `tokio::runtime::Handle::try_current`: the runtime that the calling thread
/// has entered, or why there is none, as an I/O error around Tokio's own.
#[verifier::external_body]
pub(crate) fn current_runtime() -> (r: Result<Handle, std::io::Error>) {
    Handle::try_current().map_err(std::io::Error::other)
}

/// `TokioAsyncWriteCompatExt::compat_write` on a pipe end: the same end, as a
/// writer of the other trait family.
#[verifier::external_body]
pub(crate) fn pipe_compat_write(pipe: DuplexStream) -> (c: Compat<DuplexStream>) {
    pipe.compat_write()
}

/// `FuturesAsyncWriteCompatExt::compat_write` on the shared, locked pipe end:
/// the same reference, as a writer of the first trait family again.
#[verifier::external_body]
pub(crate) fn shared_compat_write(
    shared: async_dup::Arc<async_dup::Mutex<Compat<DuplexStream>>>,
) -> (c: SharedPipe) {
    shared.compat_write()
}

/// `Clone::clone` on a shared pipe. `Compat` derives it, and the clone of an
/// `async_dup::Arc` points to the same allocation: the result refers to the
/// pipe that `pipe` refers to.
#[verifier::external_body]
pub(crate) fn shared_pipe_clone(pipe: &SharedPipe) -> (c: SharedPipe)
    ensures
        c == *pipe,
{
    pipe.clone()
}

/// `async_dup::Mutex::try_lock` on the lock of a shared pipe, which
/// `Compat::get_ref` hands out: the guard where the lock was free, nothing
/// where an operation of another clone holds it. It never waits.
#[verifier::external_body]
pub(crate) fn pipe_try_lock<'a>(pipe: &'a SharedPipe) -> (g: Option<PipeGuard<'a>>) {
    pipe.get_ref().try_lock()
}

/// `AsyncWrite::poll_write` of `tokio::io::Stdout`, polled after
/// `Handle::enter` has made `runtime` the calling thread's runtime for the
/// length of the call, so that the stream finds one. A completed write has
/// copied a prefix of `buf` into the handle's buffer,
/// reports its length, and has sent the copy to the runtime's blocking pool
/// to be written out. It is pending while an earlier write or flush is still
/// in the pool, and fails with the error of that earlier operation, or where
/// the runtime takes no more work.
#[verifier::external_body]
fn stdout_poll_write(stream: &mut Stdout, runtime: &Handle, cx: &mut Context<'_>, buf: &[u8]) -> (r:
    Report<usize>)
    ensures
        r.origin() == Destination::Stdout,
        r.offered() == buf@,
        r.progress() matches Progress::Done(n) ==> n <= buf@.len(),
{
    let _entered = runtime.enter();
    let progress = match Pin::new(stream).poll_write(cx, buf) {
        Poll::Pending => Progress::Pending,
        Poll::Ready(Ok(n)) => Progress::Done(n),
        Poll::Ready(Err(e)) => Progress::Failed(e),
    };
    Report { progress, origin: Ghost(Destination::Stdout), offered: Ghost(buf@) }
}

/// `AsyncWrite::poll_flush` of `tokio::io::Stdout`, polled after
/// `Handle::enter` has made `runtime` the calling thread's runtime for the
/// length of the call, so that the stream finds one. Nothing is known of the
/// outcome: it is that of the flush of the operating system's
/// stream, which the runtime's blocking pool carries out.
#[verifier::external_body]
fn stdout_poll_flush(stream: &mut Stdout, runtime: &Handle, cx: &mut Context<'_>) -> (r: Report<()>)
    ensures
        r.origin() == Destination::Stdout,
        r.offered() == Seq::<u8>::empty(),
{
    let _entered = runtime.enter();
    let progress = match Pin::new(stream).poll_flush(cx) {
        Poll::Pending => Progress::Pending,
        Poll::Ready(Ok(())) => Progress::Done(()),
        Poll::Ready(Err(e)) => Progress::Failed(e),
    };
    Report { progress, origin: Ghost(Destination::Stdout), offered: Ghost(Seq::empty()) }
}

/// `AsyncWrite::poll_shutdown` of `tokio::io::Stdout`, which does nothing and
/// reports success at once. It needs no runtime.
#[verifier::external_body]
pub(crate) fn stdout_poll_shutdown(stream: &mut Stdout, cx: &mut Context<'_>) -> (r: Report<()>)
    ensures
        r.origin() == Destination::Stdout,
        r.offered() == Seq::<u8>::empty(),
        r.progress() is Done,
{
    let progress = match Pin::new(stream).poll_shutdown(cx) {
        Poll::Pending => Progress::Pending,
        Poll::Ready(Ok(())) => Progress::Done(()),
        Poll::Ready(Err(e)) => Progress::Failed(e),
    };
    Report { progress, origin: Ghost(Destination::Stdout), offered: Ghost(Seq::empty()) }
}

/// `AsyncWrite::poll_write` of `tokio::io::Stderr`, polled after
/// `Handle::enter` has made `runtime` the calling thread's runtime for the
/// length of the call, so that the stream finds one. A completed write has
/// copied a prefix of `buf` into the handle's buffer,
/// reports its length, and has sent the copy to the runtime's blocking pool
/// to be written out. It is pending while an earlier write or flush is still
/// in the pool, and fails with the error of that earlier operation, or where
/// the runtime takes no more work.
#[verifier::external_body]
fn stderr_poll_write(stream: &mut Stderr, runtime: &Handle, cx: &mut Context<'_>, buf: &[u8]) -> (r:
    Report<usize>)
    ensures
        r.origin() == Destination::Stderr,
        r.offered() == buf@,
        r.progress() matches Progress::Done(n) ==> n <= buf@.len(),
{
    let _entered = runtime.enter();
    let progress = match Pin::new(stream).poll_write(cx, buf) {
        Poll::Pending => Progress::Pending,
        Poll::Ready(Ok(n)) => Progress::Done(n),
        Poll::Ready(Err(e)) => Progress::Failed(e),
    };
    Report { progress, origin: Ghost(Destination::Stderr), offered: Ghost(buf@) }
}

/// `AsyncWrite::poll_flush` of `tokio::io::Stderr`, polled after
/// `Handle::enter` has made `runtime` the calling thread's runtime for the
/// length of the call, so that the stream finds one. Nothing is known of the
/// outcome: it is that of the flush of the operating system's
/// stream, which the runtime's blocking pool carries out.
#[verifier::external_body]
fn stderr_poll_flush(stream: &mut Stderr, runtime: &Handle, cx: &mut Context<'_>) -> (r: Report<()>)
    ensures
        r.origin() == Destination::Stderr,
        r.offered() == Seq::<u8>::empty(),
{
    let _entered = runtime.enter();
    let progress = match Pin::new(stream).poll_flush(cx) {
        Poll::Pending => Progress::Pending,
        Poll::Ready(Ok(())) => Progress::Done(()),
        Poll::Ready(Err(e)) => Progress::Failed(e),
    };
    Report { progress, origin: Ghost(Destination::Stderr), offered: Ghost(Seq::empty()) }
}

/// `AsyncWrite::poll_shutdown` of `tokio::io::Stderr`, which does nothing and
/// reports success at once. It needs no runtime.
#[verifier::external_body]
pub(crate) fn stderr_poll_shutdown(stream: &mut Stderr, cx: &mut Context<'_>) -> (r: Report<()>)
    ensures
        r.origin() == Destination::Stderr,
        r.offered() == Seq::<u8>::empty(),
        r.progress() is Done,
{
    let progress = match Pin::new(stream).poll_shutdown(cx) {
        Poll::Pending => Progress::Pending,
        Poll::Ready(Ok(())) => Progress::Done(()),
        Poll::Ready(Err(e)) => Progress::Failed(e),
    };
    Report { progress, origin: Ghost(Destination::Stderr), offered: Ghost(Seq::empty()) }
}

/// `AsyncWrite::poll_write` of the `tokio::io::DuplexStream` under the lock,
/// which `Compat::get_mut` hands out. It appends a prefix of `buf` to the
/// pipe and reports its length, or is pending while the pipe is full or the
/// polling task has used up its cooperative budget, or fails once the other
/// end is gone.
#[verifier::external_body]
fn locked_poll_write(guard: &mut PipeGuard<'_>, cx: &mut Context<'_>, buf: &[u8]) -> (r: Report<
    usize,
>)
    ensures
        r.origin() == Destination::DuplexStream,
        r.offered() == buf@,
        r.progress() matches Progress::Done(n) ==> n <= buf@.len(),
{
    let progress = match Pin::new(guard.get_mut()).poll_write(cx, buf) {
        Poll::Pending => Progress::Pending,
        Poll::Ready(Ok(n)) => Progress::Done(n),
        Poll::Ready(Err(e)) => Progress::Failed(e),
    };
    Report { progress, origin: Ghost(Destination::DuplexStream), offered: Ghost(buf@) }
}

/// `AsyncWrite::poll_flush` of the `tokio::io::DuplexStream` under the lock,
/// which `Compat::get_mut` hands out. The pipe has nothing to push on and
/// reports success at once.
#[verifier::external_body]
fn locked_poll_flush(guard: &mut PipeGuard<'_>, cx: &mut Context<'_>) -> (r: Report<()>)
    ensures
        r.origin() == Destination::DuplexStream,
        r.offered() == Seq::<u8>::empty(),
        r.progress() is Done,
{
    let progress = match Pin::new(guard.get_mut()).poll_flush(cx) {
        Poll::Pending => Progress::Pending,
        Poll::Ready(Ok(())) => Progress::Done(()),
        Poll::Ready(Err(e)) => Progress::Failed(e),
    };
    Report { progress, origin: Ghost(Destination::DuplexStream), offered: Ghost(Seq::empty()) }
}

/// `AsyncWrite::poll_shutdown` of the `tokio::io::DuplexStream` under the
/// lock, which `Compat::get_mut` hands out. It marks the pipe closed for
/// writing and reports success at once.
#[verifier::external_body]
fn locked_poll_shutdown(guard: &mut PipeGuard<'_>, cx: &mut Context<'_>) -> (r: Report<()>)
    ensures
        r.origin() == Destination::DuplexStream,
        r.offered() == Seq::<u8>::empty(),
        r.progress() is Done,
{
    let progress = match Pin::new(guard.get_mut()).poll_shutdown(cx) {
        Poll::Pending => Progress::Pending,
        Poll::Ready(Ok(())) => Progress::Done(()),
        Poll::Ready(Err(e)) => Progress::Failed(e),
    };
    Report { progress, origin: Ghost(Destination::DuplexStream), offered: Ghost(Seq::empty()) }
}

/// One poll of a write to `stdout`, given what the look-up of the calling
/// thread's runtime gave. Without a runtime nothing is written and the look-up's error is the
/// outcome; with one, the outcome is the stream's.
pub(crate) fn stdout_write(
    stream: &mut Stdout,
    runtime: Result<Handle, std::io::Error>,
    cx: &mut Context<'_>,
    buf: &[u8],
) -> (r: Report<usize>)
    ensures
        r.origin() == Destination::Stdout,
        r.offered() == buf@,
        runtime matches Err(e) ==> r.progress() == Progress::<usize>::Failed(e),
        r.progress() matches Progress::Done(n) ==> n <= buf@.len(),
{
    match runtime {
        Ok(handle) => stdout_poll_write(stream, &handle, cx, buf),
        Err(e) => Report {
            progress: Progress::Failed(e),
            origin: Ghost(Destination::Stdout),
            offered: Ghost(buf@),
        },
    }
}

/// One poll of a flush of `stdout`, given what the look-up of the calling
/// thread's runtime gave. Without a runtime nothing is flushed and the look-up's error is the
/// outcome; with one, the outcome is the stream's.
pub(crate) fn stdout_flush(
    stream: &mut Stdout,
    runtime: Result<Handle, std::io::Error>,
    cx: &mut Context<'_>,
) -> (r: Report<()>)
    ensures
        r.origin() == Destination::Stdout,
        r.offered() == Seq::<u8>::empty(),
        runtime matches Err(e) ==> r.progress() == Progress::<()>::Failed(e),
{
    match runtime {
        Ok(handle) => stdout_poll_flush(stream, &handle, cx),
        Err(e) => Report {
            progress: Progress::Failed(e),
            origin: Ghost(Destination::Stdout),
            offered: Ghost(Seq::empty()),
        },
    }
}

/// One poll of a write to `stderr`, given what the look-up of the calling
/// thread's runtime gave. Without a runtime nothing is written and the look-up's error is the
/// outcome; with one, the outcome is the stream's.
pub(crate) fn stderr_write(
    stream: &mut Stderr,
    runtime: Result<Handle, std::io::Error>,
    cx: &mut Context<'_>,
    buf: &[u8],
) -> (r: Report<usize>)
    ensures
        r.origin() == Destination::Stderr,
        r.offered() == buf@,
        runtime matches Err(e) ==> r.progress() == Progress::<usize>::Failed(e),
        r.progress() matches Progress::Done(n) ==> n <= buf@.len(),
{
    match runtime {
        Ok(handle) => stderr_poll_write(stream, &handle, cx, buf),
        Err(e) => Report {
            progress: Progress::Failed(e),
            origin: Ghost(Destination::Stderr),
            offered: Ghost(buf@),
        },
    }
}

/// One poll of a flush of `stderr`, given what the look-up of the calling
/// thread's runtime gave. Without a runtime nothing is flushed and the look-up's error is the
/// outcome; with one, the outcome is the stream's.
pub(crate) fn stderr_flush(
    stream: &mut Stderr,
    runtime: Result<Handle, std::io::Error>,
    cx: &mut Context<'_>,
) -> (r: Report<()>)
    ensures
        r.origin() == Destination::Stderr,
        r.offered() == Seq::<u8>::empty(),
        runtime matches Err(e) ==> r.progress() == Progress::<()>::Failed(e),
{
    match runtime {
        Ok(handle) => stderr_poll_flush(stream, &handle, cx),
        Err(e) => Report {
            progress: Progress::Failed(e),
            origin: Ghost(Destination::Stderr),
            offered: Ghost(Seq::empty()),
        },
    }
}

/// One poll of a write to a shared pipe, given what the attempt on its lock
/// gave. Where the lock is held elsewhere nothing is written: the task is
/// woken, so that it tries again, and the write is pending. Where the lock
/// was free the outcome is the pipe's, and the lock is free again on return.
pub fn write_with_lock(attempt: Option<PipeGuard<'_>>, cx: &mut Context<'_>, buf: &[u8]) -> (r:
    Report<usize>)
    ensures
        r.origin() == Destination::DuplexStream,
        r.offered() == buf@,
        attempt is None ==> r.progress() is Pending,
        r.progress() matches Progress::Done(n) ==> n <= buf@.len(),
{
    match attempt {
        Some(mut guard) => locked_poll_write(&mut guard, cx, buf),
        None => {
            cx.waker().wake_by_ref();
            Report {
                progress: Progress::Pending,
                origin: Ghost(Destination::DuplexStream),
                offered: Ghost(buf@),
            }
        },
    }
}

/// One poll of a flush of a shared pipe, given what the attempt on its lock
/// gave. Where the lock is held elsewhere the task is woken and the flush is
/// pending; where it was free the flush is done.
pub fn flush_with_lock(attempt: Option<PipeGuard<'_>>, cx: &mut Context<'_>) -> (r: Report<()>)
    ensures
        r.origin() == Destination::DuplexStream,
        r.offered() == Seq::<u8>::empty(),
        attempt is None ==> r.progress() is Pending,
        attempt is Some ==> r.progress() is Done,
{
    match attempt {
        Some(mut guard) => locked_poll_flush(&mut guard, cx),
        None => {
            cx.waker().wake_by_ref();
            Report {
                progress: Progress::Pending,
                origin: Ghost(Destination::DuplexStream),
                offered: Ghost(Seq::empty()),
            }
        },
    }
}

/// One poll of a shutdown of a shared pipe, given what the attempt on its
/// lock gave. Where the lock is held elsewhere the pipe is not closed: the
/// task is woken and the shutdown is pending. Where it was free the pipe is
/// closed for writing and the shutdown is done.
pub fn shutdown_with_lock(attempt: Option<PipeGuard<'_>>, cx: &mut Context<'_>) -> (r: Report<()>)
    ensures
        r.origin() == Destination::DuplexStream,
        r.offered() == Seq::<u8>::empty(),
        attempt is None ==> r.progress() is Pending,
        attempt is Some ==> r.progress() is Done,
{
    match attempt {
        Some(mut guard) => locked_poll_shutdown(&mut guard, cx),
        None => {
            cx.waker().wake_by_ref();
            Report {
                progress: Progress::Pending,
                origin: Ghost(Destination::DuplexStream),
                offered: Ghost(Seq::empty()),
            }
        },
    }
}

/// A write to the void: all of `buf` is accepted at once and dropped.
pub fn void_write(buf: &[u8]) -> (r: Report<usize>)
    ensures
        r.origin() == Destination::Sink,
        r.offered() == buf@,
        r.progress() == Progress::Done(buf@.len() as usize),
{
    Report {
        progress: Progress::Done(buf.len()),
        origin: Ghost(Destination::Sink),
        offered: Ghost(buf@),
    }
}

/// A flush or a shutdown of the void: there is nothing to do, and it is done.
pub fn void_done() -> (r: Report<()>)
    ensures
        r.origin() == Destination::Sink,
        r.offered() == Seq::<u8>::empty(),
        r.progress() is Done,
{
    Report { progress: Progress::Done(()), origin: Ghost(Destination::Sink), offered: Ghost(Seq::empty()) }
}

} // verus!
