//! The output buffer of a successful pull and its stamping policy.
//!
//! The payload is the delivered frame, ownership passing to the consumer.
//! The presentation timestamp is the pipeline's running time — the clock
//! reading minus the externally supplied base time, clamped to zero should
//! the clock have run backwards — and stays unset when clock or base time
//! are unavailable. The duration is one frame period of the negotiated rate.

use vstd::prelude::*;

verus! {

/// Nanoseconds in one second.
pub const NANOS_PER_SECOND: u64 = 1_000_000_000;

/// A timestamped buffer handed to the consumer.
pub struct OutputBuffer {
    /// The frame bytes, owned by the consumer from here on.
    pub payload: Vec<u8>,
    /// Presentation timestamp in nanoseconds since the pipeline epoch;
    /// unset when the pipeline clock or base time was unavailable.
    pub pts_ns: Option<u64>,
    /// One frame period, in nanoseconds.
    pub duration_ns: u64,
}

/// The presentation timestamp derived from a clock reading and a base time:
/// their difference, zero if the reading lies before the base, unset if
/// either is unavailable.
pub open spec fn spec_pts(now_ns: Option<u64>, base_ns: Option<u64>) -> Option<u64> {
    if now_ns is Some && base_ns is Some {
        if now_ns->0 >= base_ns->0 {
            Some((now_ns->0 - base_ns->0) as u64)
        } else {
            Some(0u64)
        }
    } else {
        None
    }
}

/// One frame period of the given rate, in nanoseconds.
pub open spec fn spec_frame_duration_ns(frame_rate: int) -> u64
    recommends
        frame_rate > 0,
{
    (NANOS_PER_SECOND as int / frame_rate) as u64
}

/// Build the output buffer of a successful pull: the payload as delivered,
/// the timestamp derived from the clock values, the duration one frame
/// period of the given rate.
pub fn assemble_buffer(
    payload: Vec<u8>,
    now_ns: Option<u64>,
    base_ns: Option<u64>,
    frame_rate: u32,
) -> (buf: OutputBuffer)
    requires
        frame_rate > 0,
    ensures
        buf.payload@ == payload@,
        buf.pts_ns == spec_pts(now_ns, base_ns),
        buf.duration_ns == spec_frame_duration_ns(frame_rate as int),
{
    let pts_ns: Option<u64> = match (now_ns, base_ns) {
        (Some(now), Some(base)) => if now >= base {
            Some(now - base)
        } else {
            Some(0)
        },
        _ => None,
    };
    let duration_ns: u64 = NANOS_PER_SECOND / (frame_rate as u64);
    OutputBuffer { payload, pts_ns, duration_ns }
}

} // verus!
