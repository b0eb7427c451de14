use vstd::prelude::*;

verus! {

/// Status code returned by the native graphics services.
pub type CGError = i32;

/// Errors returned by window operations.
#[derive(Debug, Clone, Copy)]
pub enum OsError {
    /// A native call failed with this status code.
    CGError(CGError),
    /// The window could not be created, for the reason given.
    CreationError(&'static str),
    /// The operation needs a window that this backend created; the handle
    /// was supplied by the host.
    Unsupported(&'static str),
}

} // verus!
