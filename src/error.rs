//! The error taxonomy that every failure is mapped into. A denied
//! permission is not an error: it is a response with `granted == false`.
use vstd::prelude::*;

verus! {

#[derive(Clone, Copy, Debug, PartialEq, Eq, Structural)]
pub enum ErrorKind {
    /// The native permission or service facility could not be located.
    PlatformUnavailable,
    /// The platform's service manager refused a start, stop or update.
    ServiceOperationFailed,
    /// A request or response could not be decoded or encoded.
    Serialization,
}

/// A failure: its kind and the platform's message, where it gave one.
#[derive(Clone, Debug)]
pub struct Error {
    pub kind: ErrorKind,
    pub message: String,
}

impl Error {
    pub fn new(kind: ErrorKind, message: String) -> (r: Error)
        ensures
            r.kind == kind,
            r.message@ == message@,
    {
        Error { kind, message }
    }

    pub fn platform_unavailable(message: String) -> (r: Error)
        ensures
            r.kind == ErrorKind::PlatformUnavailable,
            r.message@ == message@,
    {
        Error { kind: ErrorKind::PlatformUnavailable, message }
    }

    pub fn service_failed(message: String) -> (r: Error)
        ensures
            r.kind == ErrorKind::ServiceOperationFailed,
            r.message@ == message@,
    {
        Error { kind: ErrorKind::ServiceOperationFailed, message }
    }

    pub fn serialization(message: String) -> (r: Error)
        ensures
            r.kind == ErrorKind::Serialization,
            r.message@ == message@,
    {
        Error { kind: ErrorKind::Serialization, message }
    }
}

} // verus!
