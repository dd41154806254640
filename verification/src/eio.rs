//! How a transport failure is classified.

use vstd::prelude::*;

verus! {
/// The kinds of failure a byte-stream transport reports. A transport's own
/// error is reduced to its kind before it reaches this library.
#[derive(Clone, Copy, Debug, PartialEq, Eq, Structural)]
pub enum ErrorKind {
    /// Unspecified error kind.
    Other,
    NotFound,
    PermissionDenied,
    ConnectionRefused,
    ConnectionReset,
    ConnectionAborted,
    /// The operation failed because the stream is not connected.
    NotConnected,
    AddrInUse,
    AddrNotAvailable,
    BrokenPipe,
    AlreadyExists,
    InvalidInput,
    /// Data not valid for the operation were encountered.
    InvalidData,
    TimedOut,
    Interrupted,
    Unsupported,
    /// A buffer could not be provided.
    OutOfMemory,
    /// A write could not write any data.
    WriteZero,
}
} // verus!
