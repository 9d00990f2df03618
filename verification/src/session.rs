//! The capture lifecycle state machine and the pull protocol.
//!
//! A session sequences Idle → Negotiated → Streaming → Stopped, moving to
//! Errored when a step fails. The device transport itself is an external
//! collaborator: the driving layer performs each device operation and feeds
//! the outcome back in (`report_open`, `report_delivery`), delivers frames
//! through `on_frame`, and runs the bounded wait of a pull by calling `poll`
//! once per poll interval, sleeping between calls. Every decision — admission,
//! teardown, overwrite, cancellation, timeout — is taken here.

use vstd::prelude::*;

use crate::errors::{DeviceError, DeviceErrorKind, DeviceOp, PullError};
use crate::format::{compatible_with_target, format_ok, spec_target_format, target_format,
    CaptureFormat};
use crate::mailbox::{clear_spec, mailbox_inv, put_spec, take_spec, empty_mailbox, FrameMailbox,
    MailboxView};
use crate::producer::{assemble_buffer, spec_frame_duration_ns, spec_pts, OutputBuffer};

verus! {

/// Lifecycle state of a capture session.
#[derive(Clone, Copy, Debug, PartialEq, Eq, Structural)]
pub enum SessionState {
    /// Fresh session, no device resource held.
    Idle,
    /// A start is under way: the format is chosen, delivery not yet running.
    Negotiated,
    /// The device is open and frames are being delivered asynchronously.
    Streaming,
    /// Torn down after a stop; a new start is allowed.
    Stopped,
    /// A start step failed; the error is kept for pulls until the next start.
    Errored,
}

/// What a stop asks the device layer to wind down, in this order: delivery
/// first (no frame callback runs after it), then the device itself.
#[derive(Clone, Copy, Debug, PartialEq, Eq, Structural)]
pub struct TeardownActions {
    /// Asynchronous delivery is running and must be stopped.
    pub stop_stream: bool,
    /// The device is open and must be released.
    pub close_device: bool,
}

/// The mathematical state of a capture session.
#[verifier::ext_equal]
pub struct SessionView {
    pub state: SessionState,
    /// The fixed format this source requests from the device.
    pub target: CaptureFormat,
    /// The format the hosting pipeline confirmed, once it did.
    pub negotiated: Option<CaptureFormat>,
    /// Whether the session holds the opened device.
    pub device_open: bool,
    /// Whether asynchronous delivery is running.
    pub stream_active: bool,
    /// The error of the last failed start, while in Errored.
    pub last_error: Option<DeviceError>,
    /// The frame mailbox bridging the capture callback and the consumer.
    pub mailbox: MailboxView,
    /// Whether an unlock request is pending: pulls must cancel promptly.
    pub flushing: bool,
}

/// Session invariant: the device resources match the lifecycle state — held
/// exactly while streaming, with delivery never outliving the device — the
/// target format is well formed, a confirmed format agrees with it, an
/// Errored session remembers its error, and the mailbox history is sound.
pub open spec fn session_inv(v: SessionView) -> bool {
    &&& format_ok(v.target)
    &&& (v.negotiated matches Some(f) ==> compatible_with_target(f, v.target))
    &&& mailbox_inv(v.mailbox)
    &&& (v.state is Streaming ==> v.device_open && v.stream_active)
    &&& (v.state is Negotiated ==> !v.stream_active)
    &&& ((v.state is Idle || v.state is Stopped || v.state is Errored) ==> !v.device_open
        && !v.stream_active)
    &&& (v.state is Errored ==> v.last_error is Some)
}

/// The state a fresh session is in.
pub open spec fn initial_session() -> SessionView {
    SessionView {
        state: SessionState::Idle,
        target: spec_target_format(),
        negotiated: None,
        device_open: false,
        stream_active: false,
        last_error: None,
        mailbox: empty_mailbox(),
        flushing: false,
    }
}

/// A start may begin from Idle and Stopped, and from Errored as a retry;
/// a session that is already starting or streaming rejects it.
pub open spec fn startable(v: SessionView) -> bool {
    v.state is Idle || v.state is Stopped || v.state is Errored
}

/// Effect of admitting a start: the format is chosen, the previous error is
/// forgotten, and the mailbox is emptied so no frame of an earlier session
/// can leak into this one.
pub open spec fn begin_start_spec(v: SessionView) -> SessionView {
    SessionView {
        state: SessionState::Negotiated,
        last_error: None,
        mailbox: clear_spec(v.mailbox),
        ..v
    }
}

/// Effect of the device having been opened.
pub open spec fn open_ok_spec(v: SessionView) -> SessionView {
    SessionView { device_open: true, ..v }
}

/// Effect of a failed open: nothing was acquired, the session is Errored.
pub open spec fn open_failed_spec(v: SessionView, e: DeviceError) -> SessionView {
    SessionView { state: SessionState::Errored, last_error: Some(e), ..v }
}

/// Effect of delivery having started: the session streams.
pub open spec fn delivery_ok_spec(v: SessionView) -> SessionView {
    SessionView { state: SessionState::Streaming, stream_active: true, ..v }
}

/// Effect of delivery having failed to start: the open device is given up —
/// no resource stays held on the Errored path.
pub open spec fn delivery_failed_spec(v: SessionView, e: DeviceError) -> SessionView {
    SessionView {
        state: SessionState::Errored,
        last_error: Some(e),
        device_open: false,
        stream_active: false,
        ..v
    }
}

/// Effect of a stop: everything is wound down, the mailbox is emptied, and
/// the session may be started again.
pub open spec fn stop_spec(v: SessionView) -> SessionView {
    SessionView {
        state: SessionState::Stopped,
        device_open: false,
        stream_active: false,
        mailbox: clear_spec(v.mailbox),
        ..v
    }
}

/// What a stop asks the device layer to do: exactly what is still held.
pub open spec fn stop_actions_spec(v: SessionView) -> TeardownActions {
    TeardownActions { stop_stream: v.stream_active, close_device: v.device_open }
}

/// Effect of the pipeline confirming a format.
pub open spec fn negotiate_spec(v: SessionView, f: CaptureFormat) -> SessionView {
    SessionView { negotiated: Some(f), ..v }
}

/// Effect of a delivered frame: it goes into the mailbox, overwriting.
pub open spec fn on_frame_spec(v: SessionView, frame: Seq<u8>) -> SessionView {
    SessionView { mailbox: put_spec(v.mailbox, frame), ..v }
}

/// The error a start attempt gets while the session is starting or streaming.
pub open spec fn spec_start_rejected() -> DeviceError {
    DeviceError { kind: DeviceErrorKind::DeviceBusy, op: DeviceOp::Lifecycle, code: 0 }
}

/// The error an incompatible proposed format gets.
pub open spec fn spec_format_rejected() -> DeviceError {
    DeviceError { kind: DeviceErrorKind::FormatUnsupported, op: DeviceOp::Negotiate, code: 0 }
}

/// Why a pull is refused outside Streaming: the last error while Errored,
/// a caller ordering error otherwise.
pub open spec fn admission_error(v: SessionView) -> PullError {
    if v.state is Errored {
        match v.last_error {
            Some(e) => PullError::Device(e),
            None => PullError::NotNegotiated,
        }
    } else {
        PullError::NotNegotiated
    }
}

/// The frame rate pulls derive the buffer duration from: the confirmed
/// format's, or the fixed target's while none is confirmed.
pub open spec fn effective_frame_rate(v: SessionView) -> u32 {
    match v.negotiated {
        Some(f) => f.frame_rate,
        None => v.target.frame_rate,
    }
}

/// What one poll iteration of a streaming pull decides, in this order: a
/// pending unlock request cancels, a buffered frame is delivered, a spent
/// wait budget ends the stream, otherwise the pull keeps waiting.
#[derive(Clone, Copy, Debug, PartialEq, Eq, Structural)]
pub enum PollChoice {
    Cancel,
    Deliver,
    TimeOut,
    KeepWaiting,
}

/// The decision of one poll iteration, from what the iteration observes.
pub open spec fn poll_choice(
    flushing: bool,
    slot: Option<Seq<u8>>,
    elapsed_ms: int,
    max_wait_ms: int,
) -> PollChoice {
    if flushing {
        PollChoice::Cancel
    } else if slot is Some {
        PollChoice::Deliver
    } else if elapsed_ms > max_wait_ms {
        PollChoice::TimeOut
    } else {
        PollChoice::KeepWaiting
    }
}

/// The outcome of one poll iteration, as handed to the driving loop.
#[derive(Debug, PartialEq, Eq)]
pub enum PollStep {
    /// A frame was buffered: here it is; the slot is now empty.
    Deliver(Vec<u8>),
    /// The pull ends without a frame, for this reason.
    Fail(PullError),
    /// Nothing buffered and budget left: sleep one poll interval and poll
    /// again with the elapsed time advanced.
    Wait,
}

/// How long the driving loop sleeps between two polls, in milliseconds.
pub const POLL_INTERVAL_MS: u64 = 5;

/// A capture session: the lifecycle state machine, the device-resource
/// bookkeeping, the frame mailbox and the pull protocol around it.
pub struct CaptureSession {
    state: SessionState,
    target: CaptureFormat,
    negotiated: Option<CaptureFormat>,
    device_open: bool,
    stream_active: bool,
    last_error: Option<DeviceError>,
    mailbox: FrameMailbox,
    flushing: bool,
}

impl View for CaptureSession {
    type V = SessionView;

    closed spec fn view(&self) -> SessionView {
        SessionView {
            state: self.state,
            target: self.target,
            negotiated: self.negotiated,
            device_open: self.device_open,
            stream_active: self.stream_active,
            last_error: self.last_error,
            mailbox: self.mailbox@,
            flushing: self.flushing,
        }
    }
}

impl CaptureSession {
    /// A fresh session in Idle, set on the fixed target format.
    pub fn new() -> (s: CaptureSession)
        ensures
            s@ == initial_session(),
            session_inv(s@),
    {
        let s = CaptureSession {
            state: SessionState::Idle,
            target: target_format(),
            negotiated: None,
            device_open: false,
            stream_active: false,
            last_error: None,
            mailbox: FrameMailbox::new(),
            flushing: false,
        };
        proof {
            assert(s@ =~= initial_session());
        }
        s
    }

    /// Admit a start. From Idle, Stopped or Errored (a retry) the session
    /// chooses the fixed target format, forgets any previous error, empties
    /// the mailbox and moves to Negotiated; the caller must now open the
    /// device with the returned format and report back. While a start is
    /// under way or streaming runs, the attempt is rejected unchanged.
    pub fn begin_start(&mut self) -> (r: Result<CaptureFormat, DeviceError>)
        requires
            session_inv(old(self)@),
        ensures
            session_inv(final(self)@),
            startable(old(self)@) ==> (r matches Ok(f) && f == old(self)@.target
                && final(self)@ == begin_start_spec(old(self)@)),
            !startable(old(self)@) ==> (r matches Err(e) && e == spec_start_rejected()
                && final(self)@ == old(self)@),
    {
        match self.state {
            SessionState::Idle | SessionState::Stopped | SessionState::Errored => {
                self.state = SessionState::Negotiated;
                self.last_error = None;
                self.mailbox.clear();
                proof {
                    assert(self@ =~= begin_start_spec(old(self)@));
                }
                Ok(self.target)
            },
            _ => Err(DeviceError::internal(DeviceErrorKind::DeviceBusy, DeviceOp::Lifecycle)),
        }
    }

    /// Report the outcome of opening the device (context, lookup, exclusive
    /// access and format request, collapsed into one step). On success the
    /// session records the held device and awaits delivery; on failure —
    /// where nothing was acquired — it moves to Errored with that error,
    /// which is also returned.
    pub fn report_open(&mut self, outcome: Result<(), DeviceError>) -> (r: Result<
        (),
        DeviceError,
    >)
        requires
            session_inv(old(self)@),
            old(self)@.state is Negotiated,
            !old(self)@.device_open,
        ensures
            session_inv(final(self)@),
            outcome matches Ok(()) ==> (r matches Ok(())
                && final(self)@ == open_ok_spec(old(self)@)),
            outcome matches Err(e) ==> (r matches Err(e2) && e2 == e
                && final(self)@ == open_failed_spec(old(self)@, e)),
    {
        match outcome {
            Ok(()) => {
                self.device_open = true;
                proof {
                    assert(self@ =~= open_ok_spec(old(self)@));
                }
                Ok(())
            },
            Err(e) => {
                self.state = SessionState::Errored;
                self.last_error = Some(e);
                proof {
                    assert(self@ =~= open_failed_spec(old(self)@, e));
                }
                Err(e)
            },
        }
    }

    /// Report the outcome of starting asynchronous delivery. On success the
    /// session streams. On failure the session gives the opened device up —
    /// the caller must close it, and the resulting state holds no device
    /// resource — and moves to Errored with that error, which is returned.
    pub fn report_delivery(&mut self, outcome: Result<(), DeviceError>) -> (r: Result<
        (),
        DeviceError,
    >)
        requires
            session_inv(old(self)@),
            old(self)@.state is Negotiated,
            old(self)@.device_open,
        ensures
            session_inv(final(self)@),
            outcome matches Ok(()) ==> (r matches Ok(())
                && final(self)@ == delivery_ok_spec(old(self)@)),
            outcome matches Err(e) ==> (r matches Err(e2) && e2 == e
                && final(self)@ == delivery_failed_spec(old(self)@, e)),
            outcome is Err ==> !final(self)@.device_open && !final(self)@.stream_active,
    {
        match outcome {
            Ok(()) => {
                self.state = SessionState::Streaming;
                self.stream_active = true;
                proof {
                    assert(self@ =~= delivery_ok_spec(old(self)@));
                }
                Ok(())
            },
            Err(e) => {
                self.state = SessionState::Errored;
                self.last_error = Some(e);
                self.device_open = false;
                self.stream_active = false;
                proof {
                    assert(self@ =~= delivery_failed_spec(old(self)@, e));
                }
                Err(e)
            },
        }
    }

    /// Stop the session: valid from any state, always succeeds, idempotent.
    /// The session moves to Stopped, empties the mailbox and holds nothing;
    /// the returned actions tell the device layer exactly what is left to
    /// wind down — delivery first, then the device — which is nothing when
    /// nothing was held.
    pub fn stop(&mut self) -> (acts: TeardownActions)
        requires
            session_inv(old(self)@),
        ensures
            session_inv(final(self)@),
            final(self)@ == stop_spec(old(self)@),
            acts == stop_actions_spec(old(self)@),
    {
        let acts = TeardownActions {
            stop_stream: self.stream_active,
            close_device: self.device_open,
        };
        self.state = SessionState::Stopped;
        self.device_open = false;
        self.stream_active = false;
        self.mailbox.clear();
        proof {
            assert(self@ =~= stop_spec(old(self)@));
        }
        acts
    }

    /// The hosting pipeline proposes a format. It is accepted exactly when it
    /// agrees with the fixed target format, and recorded for the duration
    /// derivation of later pulls; the device is not reconfigured. An
    /// incompatible proposal is rejected and changes nothing.
    pub fn negotiate(&mut self, proposed: CaptureFormat) -> (r: Result<(), DeviceError>)
        requires
            session_inv(old(self)@),
        ensures
            session_inv(final(self)@),
            compatible_with_target(proposed, old(self)@.target) ==> (r matches Ok(())
                && final(self)@ == negotiate_spec(old(self)@, proposed)),
            !compatible_with_target(proposed, old(self)@.target) ==> (r matches Err(e)
                && e == spec_format_rejected() && final(self)@ == old(self)@),
    {
        if crate::format::formats_compatible(&proposed, &self.target) {
            self.negotiated = Some(proposed);
            proof {
                assert(self@ =~= negotiate_spec(old(self)@, proposed));
            }
            Ok(())
        } else {
            Err(DeviceError::internal(DeviceErrorKind::FormatUnsupported, DeviceOp::Negotiate))
        }
    }

    /// Request cancellation: any in-progress pull returns `Cancelled` at its
    /// next poll instead of waiting its budget out.
    pub fn unlock(&mut self)
        requires
            session_inv(old(self)@),
        ensures
            session_inv(final(self)@),
            final(self)@ == (SessionView { flushing: true, ..old(self)@ }),
    {
        self.flushing = true;
        proof {
            assert(self@ =~= SessionView { flushing: true, ..old(self)@ });
        }
    }

    /// Withdraw a cancellation request: pulls wait normally again.
    pub fn unlock_stop(&mut self)
        requires
            session_inv(old(self)@),
        ensures
            session_inv(final(self)@),
            final(self)@ == (SessionView { flushing: false, ..old(self)@ }),
    {
        self.flushing = false;
        proof {
            assert(self@ =~= SessionView { flushing: false, ..old(self)@ });
        }
    }

    /// A frame arrived from the capture callback: into the mailbox, replacing
    /// any frame not yet consumed. Its sole duty; it never blocks.
    pub fn on_frame(&mut self, frame: Vec<u8>)
        requires
            session_inv(old(self)@),
        ensures
            session_inv(final(self)@),
            final(self)@ == on_frame_spec(old(self)@, frame@),
    {
        self.mailbox.put(frame);
        proof {
            assert(self@ =~= on_frame_spec(old(self)@, frame@));
        }
    }

    /// One iteration of a pull's bounded wait. Outside Streaming the pull is
    /// refused: with the last error while Errored, as a caller ordering error
    /// otherwise. While streaming, the decision is `poll_choice`: a pending
    /// unlock request cancels first; then a buffered frame is delivered,
    /// emptying the slot; then a spent budget ends the stream; otherwise the
    /// driving loop should sleep one poll interval and call again. Nothing
    /// but the mailbox slot ever changes.
    pub fn poll(&mut self, elapsed_ms: u64, max_wait_ms: u64) -> (step: PollStep)
        requires
            session_inv(old(self)@),
        ensures
            session_inv(final(self)@),
            !(old(self)@.state is Streaming) ==> final(self)@ == old(self)@
                && step == PollStep::Fail(admission_error(old(self)@)),
            old(self)@.state is Streaming ==> {
                let choice = poll_choice(
                    old(self)@.flushing,
                    old(self)@.mailbox.slot,
                    elapsed_ms as int,
                    max_wait_ms as int,
                );
                &&& (choice is Cancel ==> step == PollStep::Fail(PullError::Cancelled)
                    && final(self)@ == old(self)@)
                &&& (choice is Deliver ==> (step matches PollStep::Deliver(f)
                    && Some(f@) == old(self)@.mailbox.slot
                    && final(self)@ == (SessionView {
                        mailbox: take_spec(old(self)@.mailbox),
                        ..old(self)@
                    })))
                &&& (choice is TimeOut ==> step == PollStep::Fail(PullError::EndOfStream)
                    && final(self)@ == old(self)@)
                &&& (choice is KeepWaiting ==> step == PollStep::Wait
                    && final(self)@ == old(self)@)
            },
    {
        match self.state {
            SessionState::Streaming => {
                if self.flushing {
                    PollStep::Fail(PullError::Cancelled)
                } else {
                    match self.mailbox.take() {
                        Some(f) => {
                            proof {
                                assert(self@ =~= SessionView {
                                    mailbox: take_spec(old(self)@.mailbox),
                                    ..old(self)@
                                });
                            }
                            PollStep::Deliver(f)
                        },
                        None => {
                            proof {
                                assert(self@ =~= old(self)@);
                            }
                            if elapsed_ms > max_wait_ms {
                                PollStep::Fail(PullError::EndOfStream)
                            } else {
                                PollStep::Wait
                            }
                        },
                    }
                }
            },
            SessionState::Errored => {
                match self.last_error {
                    Some(e) => PollStep::Fail(PullError::Device(e)),
                    None => PollStep::Fail(PullError::NotNegotiated),
                }
            },
            _ => PollStep::Fail(PullError::NotNegotiated),
        }
    }

    /// Wrap a delivered payload into the output buffer of a successful pull,
    /// stamped from the pipeline clock reading and the session's frame rate.
    pub fn produce(&self, payload: Vec<u8>, now_ns: Option<u64>, base_ns: Option<u64>) -> (buf:
        OutputBuffer)
        requires
            session_inv(self@),
        ensures
            buf.payload@ == payload@,
            buf.pts_ns == spec_pts(now_ns, base_ns),
            buf.duration_ns == spec_frame_duration_ns(effective_frame_rate(self@) as int),
    {
        let rate: u32 = match self.negotiated {
            Some(f) => f.frame_rate,
            None => self.target.frame_rate,
        };
        assemble_buffer(payload, now_ns, base_ns, rate)
    }

    /// The session's lifecycle state.
    pub fn current_state(&self) -> (s: SessionState)
        ensures
            s == self@.state,
    {
        self.state
    }

    /// Whether the session holds the opened device.
    pub fn has_open_device(&self) -> (r: bool)
        ensures
            r == self@.device_open,
    {
        self.device_open
    }

    /// Whether asynchronous delivery is running.
    pub fn has_active_stream(&self) -> (r: bool)
        ensures
            r == self@.stream_active,
    {
        self.stream_active
    }

    /// Whether an unlock request is pending.
    pub fn is_flushing(&self) -> (r: bool)
        ensures
            r == self@.flushing,
    {
        self.flushing
    }

    /// The error of the last failed start, while in Errored.
    pub fn last_failure(&self) -> (e: Option<DeviceError>)
        ensures
            e == self@.last_error,
    {
        self.last_error
    }

    /// The format the hosting pipeline confirmed, if it did.
    pub fn negotiated_format(&self) -> (f: Option<CaptureFormat>)
        ensures
            f == self@.negotiated,
    {
        self.negotiated
    }

    /// Whether a delivered frame is waiting in the mailbox.
    pub fn has_pending_frame(&self) -> (r: bool)
        ensures
            r == (self@.mailbox.slot is Some),
    {
        !self.mailbox.is_empty()
    }

    /// A live capture source cannot seek.
    pub fn is_seekable(&self) -> (r: bool)
        ensures
            r == false,
    {
        false
    }
}

impl Default for CaptureSession {
    /// The same fresh session `new` builds.
    fn default() -> (s: CaptureSession)
        ensures
            s@ == initial_session(),
            session_inv(s@),
    {
        CaptureSession::new()
    }
}

/// Law (lifecycle idempotence): stopping is idempotent — a second stop leaves
/// the state exactly as the first left it and finds nothing to wind down;
/// a stop from Idle likewise succeeds and performs no device action.
pub proof fn lemma_stop_idempotent(v: SessionView)
    requires
        session_inv(v),
    ensures
        stop_spec(stop_spec(v)) == stop_spec(v),
        stop_actions_spec(stop_spec(v)) == (TeardownActions {
            stop_stream: false,
            close_device: false,
        }),
        v.state is Idle ==> stop_actions_spec(v) == (TeardownActions {
            stop_stream: false,
            close_device: false,
        }),
        session_inv(stop_spec(v)),
{
    assert(stop_spec(stop_spec(v)) =~= stop_spec(v));
}

/// Law (teardown on failure): when delivery fails to start after the device
/// was opened, the failed session holds no device resource — a subsequent
/// stop has nothing to stop and nothing to close.
pub proof fn lemma_teardown_on_failure(v: SessionView, e: DeviceError)
    requires
        session_inv(v),
        v.state is Negotiated,
        v.device_open,
    ensures
        !delivery_failed_spec(v, e).device_open,
        !delivery_failed_spec(v, e).stream_active,
        delivery_failed_spec(v, e).state is Errored,
        stop_actions_spec(delivery_failed_spec(v, e)) == (TeardownActions {
            stop_stream: false,
            close_device: false,
        }),
{
}

/// Law (timeout bound): a pull on an empty, never-filled mailbox with no
/// unlock request never delivers; it keeps waiting while the elapsed time is
/// within the budget, and the first poll past the budget times out — so it
/// reports end of stream no earlier than the budget and no later than one
/// poll interval beyond it.
pub proof fn lemma_timeout_bound(
    prev_elapsed_ms: int,
    poll_interval_ms: int,
    max_wait_ms: int,
)
    requires
        poll_interval_ms >= 0,
        poll_choice(false, None, prev_elapsed_ms, max_wait_ms) is KeepWaiting,
        poll_choice(false, None, prev_elapsed_ms + poll_interval_ms, max_wait_ms) is TimeOut,
    ensures
        max_wait_ms < prev_elapsed_ms + poll_interval_ms <= max_wait_ms + poll_interval_ms,
        forall|e: int| poll_choice(false, None, e, max_wait_ms) !is Deliver,
        forall|e: int| poll_choice(false, None, e, max_wait_ms) is TimeOut ==> e > max_wait_ms,
{
}

/// The first `n` polls of a starved pull's schedule — one poll every poll
/// interval, starting at zero elapsed, the mailbox never filled, no unlock
/// request — all decided to keep waiting.
pub open spec fn waits_through(n: int, poll_interval_ms: int, max_wait_ms: int) -> bool
    decreases n,
{
    n <= 0 || (poll_choice(false, None, (n - 1) * poll_interval_ms, max_wait_ms) is KeepWaiting
        && waits_through(n - 1, poll_interval_ms, max_wait_ms))
}

/// Law (timeout placement over the whole wait): run the poll schedule of a
/// starved pull and let the poll after `n` intervals be the first to time
/// out. Then the wait ended strictly after the budget and within one poll
/// interval beyond it.
pub proof fn lemma_timeout_first_poll(poll_interval_ms: int, max_wait_ms: int, n: int)
    requires
        poll_interval_ms > 0,
        max_wait_ms >= 0,
        n >= 0,
        waits_through(n, poll_interval_ms, max_wait_ms),
        poll_choice(false, None, n * poll_interval_ms, max_wait_ms) is TimeOut,
    ensures
        max_wait_ms < n * poll_interval_ms <= max_wait_ms + poll_interval_ms,
{
    assert(n * poll_interval_ms > max_wait_ms);
    assert(n >= 1) by (nonlinear_arith)
        requires
            poll_interval_ms > 0,
            max_wait_ms >= 0,
            n * poll_interval_ms > max_wait_ms,
    ;
    assert(waits_through(n, poll_interval_ms, max_wait_ms));
    assert(poll_choice(false, None, (n - 1) * poll_interval_ms, max_wait_ms) is KeepWaiting);
    assert((n - 1) * poll_interval_ms <= max_wait_ms);
    assert(n * poll_interval_ms <= max_wait_ms + poll_interval_ms) by (nonlinear_arith)
        requires
            (n - 1) * poll_interval_ms <= max_wait_ms,
    ;
}

/// Law (cancellation): once an unlock request is pending, a poll cancels at
/// once — whatever the slot holds and however much of the wait budget is
/// left — so a blocked pull returns within one poll interval of the request.
pub proof fn lemma_cancellation_preempts(slot: Option<Seq<u8>>, elapsed_ms: int, max_wait_ms: int)
    ensures
        poll_choice(true, slot, elapsed_ms, max_wait_ms) is Cancel,
{
}

} // verus!
