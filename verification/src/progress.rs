//! The outcome of one poll of a non-blocking operation.

use vstd::prelude::*;

verus! {

/// `std::io::Error` is carried through untouched: nothing in this crate looks
/// inside one.
#[verifier::external_type_specification]
#[verifier::external_body]
pub struct ExIoError(std::io::Error);

/// What one poll of a write, flush or shutdown reported.
#[derive(Debug)]
pub enum Progress<T> {
    /// The destination cannot make progress now. The task's waker has been
    /// registered; poll again once it has been woken.
    Pending,
    /// The operation completed with this value.
    Done(T),
    /// The destination failed with this error.
    Failed(std::io::Error),
}

} // verus!
