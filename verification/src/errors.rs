//! Error taxonomy of the capture core.
//!
//! Device failures carry the operation during which they arose and the
//! transport's underlying error code, so a report is diagnosable without
//! exposing the transport's own error representation.

use vstd::prelude::*;

verus! {

/// The device operation during which a failure arose.
#[derive(Clone, Copy, Debug, PartialEq, Eq, Structural)]
pub enum DeviceOp {
    /// Creating the transport context.
    CreateContext,
    /// Looking the capture device up by its fixed vendor/product identifiers.
    FindDevice,
    /// Acquiring exclusive access to the device.
    OpenDevice,
    /// Requesting the target stream format from the device.
    ConfigureStream,
    /// Starting asynchronous frame delivery.
    StartStream,
    /// Validating a format proposed by the hosting pipeline.
    Negotiate,
    /// Admission of a lifecycle call in a state that forbids it.
    Lifecycle,
}

/// Classification of a device failure.
#[derive(Clone, Copy, Debug, PartialEq, Eq, Structural)]
pub enum DeviceErrorKind {
    /// No device with the fixed vendor/product identifiers was found.
    DeviceNotFound,
    /// The device exists but is held by someone else, or the session is
    /// already streaming and cannot be started again.
    DeviceBusy,
    /// The device refused to be opened.
    OpenFailed,
    /// The device does not support the requested format, or a proposed
    /// format disagrees with the fixed target format.
    FormatUnsupported,
    /// Asynchronous delivery could not be started.
    StreamStartFailed,
}

/// A device failure: fatal to the current start attempt, surfaced verbatim.
#[derive(Clone, Copy, Debug, PartialEq, Eq, Structural)]
pub struct DeviceError {
    pub kind: DeviceErrorKind,
    /// The operation during which the failure arose.
    pub op: DeviceOp,
    /// The transport's underlying error code, zero when the failure was
    /// raised by this core itself.
    pub code: i64,
}

/// Why a pull request produced no buffer.
#[derive(Debug, PartialEq, Eq)]
pub enum PullError {
    /// Caller ordering error: pull before a successful start.
    NotNegotiated,
    /// No frame arrived within the caller's wait budget; a stalled device
    /// is treated as end of stream.
    EndOfStream,
    /// An unlock request arrived while the pull was waiting.
    Cancelled,
    /// The session failed earlier; the error of that failure.
    Device(DeviceError),
}

impl DeviceError {
    /// A failure raised by the core itself, with no transport code.
    pub fn internal(kind: DeviceErrorKind, op: DeviceOp) -> (e: DeviceError)
        ensures
            e.kind == kind,
            e.op == op,
            e.code == 0,
    {
        DeviceError { kind, op, code: 0 }
    }
}

} // verus!
