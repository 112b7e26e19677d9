//! Outcome codes shared by every operation of the service.

use vstd::prelude::*;

verus! {

/// Outcome of a request. `Success` is the good outcome; `Code` carries a backend's own code that the
/// service hands on without interpreting it.
#[derive(Clone, Copy, PartialEq, Eq, Structural, Debug)]
pub enum Status {
    Success,
    NotFound,
    InvalidArgument,
    InvalidOperation,
    NotDirectory,
    IsDirectory,
    AlreadyExists,
    Busy,
    CrossDevice,
    OutOfMemory,
    NoSpace,
    ReadOnly,
    NotSupported,
    IoError,
    TooLarge,
    Cancelled,
    ServerDied,
    WouldBlock,
    PermissionDenied,
    Code(u64),
}

} // verus!
