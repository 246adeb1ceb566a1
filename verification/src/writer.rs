//! The sink handle: one value, four destinations, three operations.

use crate::backend::current_runtime;
use crate::backend::flush_with_lock;
use crate::backend::pipe_compat_write;
use crate::backend::pipe_try_lock;
use crate::backend::shared_compat_write;
use crate::backend::shared_pipe_clone;
use crate::backend::shutdown_with_lock;
use crate::backend::stderr_flush;
use crate::backend::stderr_poll_shutdown;
use crate::backend::stderr_write;
use crate::backend::stdout_flush;
use crate::backend::stdout_poll_shutdown;
use crate::backend::stdout_write;
use crate::backend::void_done;
use crate::backend::void_write;
use crate::backend::write_with_lock;
use crate::backend::Report;
use crate::backend::SharedPipe;
use crate::progress::Progress;
use std::task::Context;
use tokio::io::DuplexStream;
use tokio::io::Stderr;
use tokio::io::Stdout;
use vstd::prelude::*;

verus! {

/// Which destination a handle writes to.
#[derive(Clone, Copy, Debug, PartialEq, Eq, Structural)]
pub enum Destination {
    /// The process's standard output.
    Stdout,
    /// The process's standard error.
    Stderr,
    /// An in-memory pipe, shared with every clone of the handle.
    DuplexStream,
    /// The void: every byte is accepted and dropped.
    Sink,
}

/// The live resource of a handle. The variant is the destination's tag, so a
/// handle holds exactly one resource, that of its own destination.
#[derive(Debug)]
enum Kind {
    Stdout(Stdout),
    Stderr(Stderr),
    DuplexStream(SharedPipe),
    Sink,
}

/// A clonable sink for a process's output, whose destination is chosen when
/// it is made and never changes afterwards.
///
/// The view of a handle is its [`Destination`]. Two handles on pipes are
/// equal as values when they refer to the same pipe.
#[derive(Debug)]
pub struct GhciWriter {
    kind: Kind,
}

impl View for GhciWriter {
    type V = Destination;

    closed spec fn view(&self) -> Destination {
        match self.kind {
            Kind::Stdout(_) => Destination::Stdout,
            Kind::Stderr(_) => Destination::Stderr,
            Kind::DuplexStream(_) => Destination::DuplexStream,
            Kind::Sink => Destination::Sink,
        }
    }
}

impl GhciWriter {
    /// Write to `stdout`.
    pub fn stdout() -> (w: Self)
        ensures
            w@ == Destination::Stdout,
    {
        Self { kind: Kind::Stdout(tokio::io::stdout()) }
    }

    /// Write to `stderr`.
    pub fn stderr() -> (w: Self)
        ensures
            w@ == Destination::Stderr,
    {
        Self { kind: Kind::Stderr(tokio::io::stderr()) }
    }

    /// Write to an in-memory pipe, of which `duplex_stream` is one end.
    ///
    /// The end is put behind a lock and a counted reference, so that every
    /// clone of the handle writes to this one pipe, one write at a time.
    pub fn duplex_stream(duplex_stream: DuplexStream) -> (w: Self)
        ensures
            w@ == Destination::DuplexStream,
    {
        let locked = async_dup::Mutex::new(pipe_compat_write(duplex_stream));
        let shared = shared_compat_write(async_dup::Arc::new(locked));
        Self { kind: Kind::DuplexStream(shared) }
    }

    /// Write to the void.
    pub fn sink() -> (w: Self)
        ensures
            w@ == Destination::Sink,
    {
        Self { kind: Kind::Sink }
    }

    /// The destination that this handle was made for.
    pub fn destination(&self) -> (d: Destination)
        ensures
            d == self@,
    {
        match &self.kind {
            Kind::Stdout(_) => Destination::Stdout,
            Kind::Stderr(_) => Destination::Stderr,
            Kind::DuplexStream(_) => Destination::DuplexStream,
            Kind::Sink => Destination::Sink,
        }
    }

    /// Whether an operation on a handle left it where it was: on the same
    /// destination and, for a pipe or the void, the very same value.
    pub open spec fn kept(before: Self, after: Self) -> bool {
        &&& after@ == before@
        &&& before@ == Destination::DuplexStream || before@ == Destination::Sink ==> after
            == before
    }

    /// Tries to write bytes of `buf` to the destination, without blocking.
    ///
    /// The report is that of this handle's own destination on `buf`.
    /// `Done(n)` says that the first `n` bytes of `buf` were accepted, and
    /// `n` is never more than `buf` holds. The void accepts all of `buf` at
    /// once, whatever it holds. A standard stream fails where the calling
    /// thread has entered no runtime. A pipe is pending, with the task woken
    /// to try again, while an operation of another clone holds its lock. An
    /// error of the destination is handed on as it came.
    pub fn poll_write(&mut self, cx: &mut Context<'_>, buf: &[u8]) -> (r: Report<usize>)
        ensures
            Self::kept(*old(self), *final(self)),
            r.origin() == old(self)@,
            r.offered() == buf@,
            r.progress() matches Progress::Done(n) ==> n <= buf@.len(),
            old(self)@ == Destination::Sink ==> r.progress() == Progress::Done(
                buf@.len() as usize,
            ),
    {
        match &mut self.kind {
            Kind::Stdout(x) => stdout_write(x, current_runtime(), cx, buf),
            Kind::Stderr(x) => stderr_write(x, current_runtime(), cx, buf),
            Kind::DuplexStream(x) => write_with_lock(pipe_try_lock(x), cx, buf),
            Kind::Sink => void_write(buf),
        }
    }

    /// Asks the destination to push on what it has buffered, without
    /// blocking.
    ///
    /// The report is that of this handle's own destination. The void is done
    /// at once. A pipe has nothing to push on: it is done, or pending while
    /// an operation of another clone holds its lock, and never fails. A
    /// standard stream fails where the calling thread has entered no runtime;
    /// else its error is handed on as it came.
    pub fn poll_flush(&mut self, cx: &mut Context<'_>) -> (r: Report<()>)
        ensures
            Self::kept(*old(self), *final(self)),
            r.origin() == old(self)@,
            r.offered() == Seq::<u8>::empty(),
            old(self)@ == Destination::Sink ==> r.progress() is Done,
            old(self)@ == Destination::DuplexStream ==> r.progress() !is Failed,
    {
        match &mut self.kind {
            Kind::Stdout(x) => stdout_flush(x, current_runtime(), cx),
            Kind::Stderr(x) => stderr_flush(x, current_runtime(), cx),
            Kind::DuplexStream(x) => flush_with_lock(pipe_try_lock(x), cx),
            Kind::Sink => void_done(),
        }
    }

    /// Asks the destination to close in an orderly way, without blocking.
    ///
    /// The report is that of this handle's own destination. The standard
    /// streams and the void are done at once. A pipe is done, and from then
    /// on closed for writing for this handle and every clone of it, or
    /// pending and still open while an operation of another clone holds its
    /// lock; it never fails.
    pub fn poll_shutdown(&mut self, cx: &mut Context<'_>) -> (r: Report<()>)
        ensures
            Self::kept(*old(self), *final(self)),
            r.origin() == old(self)@,
            r.offered() == Seq::<u8>::empty(),
            old(self)@ != Destination::DuplexStream ==> r.progress() is Done,
            old(self)@ == Destination::DuplexStream ==> r.progress() !is Failed,
    {
        match &mut self.kind {
            Kind::Stdout(x) => stdout_poll_shutdown(x, cx),
            Kind::Stderr(x) => stderr_poll_shutdown(x, cx),
            Kind::DuplexStream(x) => shutdown_with_lock(pipe_try_lock(x), cx),
            Kind::Sink => void_done(),
        }
    }
}

impl Clone for GhciWriter {
    /// A second handle on the same destination.
    ///
    /// The standard streams are one per process, so their clone is a fresh
    /// handle. The clone of a pipe handle is a new reference to the same
    /// pipe, and the clone of a handle on the void is that handle again.
    fn clone(&self) -> (w: Self)
        ensures
            w@ == self@,
            self@ == Destination::DuplexStream || self@ == Destination::Sink ==> w == *self,
    {
        match &self.kind {
            Kind::Stdout(_) => Self::stdout(),
            Kind::Stderr(_) => Self::stderr(),
            Kind::DuplexStream(x) => Self { kind: Kind::DuplexStream(shared_pipe_clone(x)) },
            Kind::Sink => Self::sink(),
        }
    }
}

} // verus!
