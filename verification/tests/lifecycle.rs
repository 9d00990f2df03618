//! The capture lifecycle state machine observed from outside: start phases,
//! failure paths, teardown, idempotent stop, and format negotiation.

use bigeye::errors::{DeviceError, DeviceErrorKind, DeviceOp, PullError};
use bigeye::format::{CaptureFormat, PixelEncoding};
use bigeye::session::{CaptureSession, PollStep, SessionState, TeardownActions};

fn streaming_session() -> CaptureSession {
    let mut s = CaptureSession::new();
    s.begin_start().expect("start admission");
    s.report_open(Ok(())).expect("open");
    s.report_delivery(Ok(())).expect("delivery");
    s
}

#[test]
fn start_reaches_streaming_with_fixed_format() {
    let mut s = CaptureSession::new();
    assert_eq!(s.current_state(), SessionState::Idle);
    let fmt = s.begin_start().expect("start admission");
    assert_eq!(
        fmt,
        CaptureFormat {
            width: 800,
            height: 400,
            frame_rate: 90,
            encoding: PixelEncoding::Mjpeg,
        }
    );
    assert_eq!(s.current_state(), SessionState::Negotiated);
    s.report_open(Ok(())).expect("open");
    assert!(s.has_open_device());
    s.report_delivery(Ok(())).expect("delivery");
    assert_eq!(s.current_state(), SessionState::Streaming);
    assert!(s.has_open_device());
    assert!(s.has_active_stream());
}

#[test]
fn start_rejected_while_streaming() {
    let mut s = streaming_session();
    let err = s.begin_start().expect_err("already streaming");
    assert_eq!(err.kind, DeviceErrorKind::DeviceBusy);
    assert_eq!(err.op, DeviceOp::Lifecycle);
    assert_eq!(s.current_state(), SessionState::Streaming);
}

#[test]
fn open_failure_moves_to_errored() {
    let mut s = CaptureSession::new();
    s.begin_start().expect("start admission");
    let failure = DeviceError {
        kind: DeviceErrorKind::DeviceNotFound,
        op: DeviceOp::FindDevice,
        code: -4,
    };
    let err = s.report_open(Err(failure)).expect_err("open failed");
    assert_eq!(err, failure);
    assert_eq!(s.current_state(), SessionState::Errored);
    assert_eq!(s.last_failure(), Some(failure));
    assert!(!s.has_open_device());
}

#[test]
fn teardown_on_callback_failure() {
    let mut s = CaptureSession::new();
    s.begin_start().expect("start admission");
    s.report_open(Ok(())).expect("open");
    assert!(s.has_open_device());
    let failure = DeviceError {
        kind: DeviceErrorKind::StreamStartFailed,
        op: DeviceOp::StartStream,
        code: -99,
    };
    let err = s.report_delivery(Err(failure)).expect_err("delivery failed");
    assert_eq!(err, failure);
    assert_eq!(s.current_state(), SessionState::Errored);
    assert!(!s.has_open_device());
    assert!(!s.has_active_stream());
    // a subsequent stop is a no-op on the device: nothing is held
    let acts = s.stop();
    assert_eq!(acts, TeardownActions { stop_stream: false, close_device: false });
}

#[test]
fn stop_twice_is_idempotent() {
    let mut s = streaming_session();
    s.on_frame(vec![1, 2]);
    let first = s.stop();
    assert_eq!(first, TeardownActions { stop_stream: true, close_device: true });
    assert_eq!(s.current_state(), SessionState::Stopped);
    assert!(!s.has_pending_frame());
    let second = s.stop();
    assert_eq!(second, TeardownActions { stop_stream: false, close_device: false });
    assert_eq!(s.current_state(), SessionState::Stopped);
    assert!(!s.has_open_device());
    assert!(!s.has_active_stream());
    assert!(!s.has_pending_frame());
    assert_eq!(s.last_failure(), None);
}

#[test]
fn stop_from_idle_is_a_no_op_success() {
    let mut s = CaptureSession::new();
    let first = s.stop();
    assert_eq!(first, TeardownActions { stop_stream: false, close_device: false });
    assert_eq!(s.current_state(), SessionState::Stopped);
    let second = s.stop();
    assert_eq!(second, TeardownActions { stop_stream: false, close_device: false });
    assert_eq!(s.current_state(), SessionState::Stopped);
}

#[test]
fn errored_session_can_retry_start() {
    let mut s = CaptureSession::new();
    s.begin_start().expect("start admission");
    let failure = DeviceError {
        kind: DeviceErrorKind::OpenFailed,
        op: DeviceOp::OpenDevice,
        code: 13,
    };
    s.report_open(Err(failure)).expect_err("open failed");
    assert_eq!(s.current_state(), SessionState::Errored);
    let fmt = s.begin_start().expect("retry from Errored");
    assert_eq!(fmt.width, 800);
    assert_eq!(s.current_state(), SessionState::Negotiated);
    assert_eq!(s.last_failure(), None);
}

#[test]
fn negotiate_accepts_the_target_format() {
    let mut s = CaptureSession::new();
    let proposed = CaptureFormat {
        width: 800,
        height: 400,
        frame_rate: 90,
        encoding: PixelEncoding::Mjpeg,
    };
    s.negotiate(proposed).expect("compatible");
    assert_eq!(s.negotiated_format(), Some(proposed));
}

#[test]
fn negotiate_rejects_other_formats() {
    let mut s = CaptureSession::new();
    let proposed = CaptureFormat {
        width: 640,
        height: 480,
        frame_rate: 30,
        encoding: PixelEncoding::Yuyv,
    };
    let err = s.negotiate(proposed).expect_err("incompatible");
    assert_eq!(err.kind, DeviceErrorKind::FormatUnsupported);
    assert_eq!(err.op, DeviceOp::Negotiate);
    assert_eq!(s.negotiated_format(), None);
}

#[test]
fn pull_before_start_fails_not_negotiated() {
    let mut s = CaptureSession::new();
    assert_eq!(s.poll(0, 100), PollStep::Fail(PullError::NotNegotiated));
    s.stop();
    assert_eq!(s.poll(0, 100), PollStep::Fail(PullError::NotNegotiated));
}

#[test]
fn pull_in_errored_reports_the_last_error() {
    let mut s = CaptureSession::new();
    s.begin_start().expect("start admission");
    let failure = DeviceError {
        kind: DeviceErrorKind::DeviceBusy,
        op: DeviceOp::OpenDevice,
        code: 2,
    };
    s.report_open(Err(failure)).expect_err("open failed");
    assert_eq!(s.poll(0, 100), PollStep::Fail(PullError::Device(failure)));
}

#[test]
fn live_source_is_not_seekable() {
    let s = CaptureSession::new();
    assert!(!s.is_seekable());
}
