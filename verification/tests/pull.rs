//! The pull protocol observed from outside: delivery, starvation, timeout
//! placement, cancellation, and buffer stamping.

use bigeye::errors::PullError;
use bigeye::producer::assemble_buffer;
use bigeye::session::{CaptureSession, PollStep, POLL_INTERVAL_MS};

fn streaming_session() -> CaptureSession {
    let mut s = CaptureSession::new();
    s.begin_start().expect("start admission");
    s.report_open(Ok(())).expect("open");
    s.report_delivery(Ok(())).expect("delivery");
    s
}

#[test]
fn end_to_end_delivery() {
    let mut s = streaming_session();
    s.on_frame(vec![0x01, 0x02, 0x03]);
    let step = s.poll(0, 100);
    let payload = match step {
        PollStep::Deliver(bytes) => bytes,
        other => panic!("expected a delivery, got {:?}", other),
    };
    assert_eq!(payload, vec![0x01, 0x02, 0x03]);
    let buf = s.produce(payload, Some(2_000_000), Some(500_000));
    assert_eq!(buf.payload, vec![0x01, 0x02, 0x03]);
    assert_eq!(buf.pts_ns, Some(1_500_000));
    assert_eq!(buf.duration_ns, 1_000_000_000 / 90);
}

#[test]
fn end_to_end_starvation() {
    let mut s = streaming_session();
    let max_wait: u64 = 50;
    let mut elapsed: u64 = 0;
    while elapsed <= max_wait {
        assert_eq!(s.poll(elapsed, max_wait), PollStep::Wait);
        elapsed += POLL_INTERVAL_MS;
    }
    // first poll past the budget: 55 ms for a 50 ms budget
    assert_eq!(elapsed, 55);
    assert_eq!(s.poll(elapsed, max_wait), PollStep::Fail(PullError::EndOfStream));
}

#[test]
fn timeout_is_never_early() {
    let mut s = streaming_session();
    assert_eq!(s.poll(49, 50), PollStep::Wait);
    assert_eq!(s.poll(50, 50), PollStep::Wait);
    assert_eq!(s.poll(51, 50), PollStep::Fail(PullError::EndOfStream));
}

#[test]
fn cancellation_preempts_waiting() {
    let mut s = streaming_session();
    assert_eq!(s.poll(0, 1000), PollStep::Wait);
    s.unlock();
    // cancelled at the next poll, with budget left and even a frame buffered
    s.on_frame(vec![9]);
    assert_eq!(s.poll(POLL_INTERVAL_MS, 1000), PollStep::Fail(PullError::Cancelled));
    s.unlock_stop();
    assert_eq!(s.poll(2 * POLL_INTERVAL_MS, 1000), PollStep::Deliver(vec![9]));
}

#[test]
fn latest_frame_wins_through_pull() {
    let mut s = streaming_session();
    s.on_frame(vec![0xAA]);
    s.on_frame(vec![0xBB]);
    assert_eq!(s.poll(0, 100), PollStep::Deliver(vec![0xBB]));
    assert_eq!(s.poll(0, 100), PollStep::Wait);
}

#[test]
fn pts_is_running_time() {
    let buf = assemble_buffer(vec![1], Some(10_000), Some(4_000), 90);
    assert_eq!(buf.pts_ns, Some(6_000));
}

#[test]
fn pts_clamps_a_backward_clock_to_zero() {
    let buf = assemble_buffer(vec![1], Some(4_000), Some(10_000), 90);
    assert_eq!(buf.pts_ns, Some(0));
}

#[test]
fn pts_unset_without_clock_or_base() {
    let without_clock = assemble_buffer(vec![1], None, Some(10_000), 90);
    assert_eq!(without_clock.pts_ns, None);
    let without_base = assemble_buffer(vec![1], Some(10_000), None, 90);
    assert_eq!(without_base.pts_ns, None);
}

#[test]
fn duration_is_one_frame_period() {
    let buf = assemble_buffer(vec![1], None, None, 90);
    assert_eq!(buf.duration_ns, 11_111_111);
    let slow = assemble_buffer(vec![1], None, None, 30);
    assert_eq!(slow.duration_ns, 33_333_333);
}

#[test]
fn stopped_session_refuses_pull_after_streaming() {
    let mut s = streaming_session();
    s.on_frame(vec![1]);
    s.stop();
    assert_eq!(s.poll(0, 100), PollStep::Fail(PullError::NotNegotiated));
}
