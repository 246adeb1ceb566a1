//! A clonable, runtime-selectable asynchronous output sink.
//!
//! A [`GhciWriter`] forwards the three operations of a non-blocking byte
//! writer (write, flush, shutdown) to one of four destinations: the process's
//! standard output, its standard error, an in-memory pipe shared by all
//! clones of the handle, or the void.

pub mod backend;
pub mod progress;
pub mod writer;

pub use backend::Report;
pub use progress::Progress;
pub use writer::Destination;
pub use writer::GhciWriter;
