//! Errors of the controller.

use vstd::prelude::*;

verus! {

/// If a lock is poisoned, the controller panics immediately with this message.
pub const FATAL_LOCK: &'static str = "FATAL Error, Lock failed!";

/// Everything that can go wrong when finding or controlling a device.
#[derive(Debug, Clone, PartialEq, Eq)]
pub enum Error {
    InvalidState,
    NoResponse,
    UnknownDevice,
    UnsupportedDevice,
    DeviceAlreadyRegistered,
    DeviceError,
    ServiceAlreadyRunning,
    ServiceNotRunning,
    NotSubscribed,
    AutoResubscribeRunning,
    TimeoutTooShort,
    /// The device description could not be read; the parser's message.
    SoapResponseError(String),
    /// The device answered with this HTTP status instead of 200.
    InvalidResponse(u16),
    /// The HTTP exchange failed; the transport's message.
    NetworkError(String),
    /// A local I/O operation failed; its message.
    IoError(String),
    /// A URL could not be parsed; the URL parser's description of why.
    UrlError(String),
    /// A number in a device description could not be read.
    ParseError(crate::text::IntErrorKind),
    /// A value cannot be sent in an HTTP header.
    HttpHeaderError,
}

} // verus!
