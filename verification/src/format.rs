//! The stream format a capture session negotiates with the device.
//!
//! The source supports exactly one output format, fixed at build time
//! (resolution, frame rate and pixel encoding of the target device); the
//! hosting pipeline's negotiation step may only confirm it.

use vstd::prelude::*;

verus! {

/// Pixel encoding of the frames the device delivers.
#[derive(Clone, Copy, Debug, PartialEq, Eq, Structural)]
pub enum PixelEncoding {
    /// Uncompressed packed YUV 4:2:2.
    Yuyv,
    /// Motion JPEG, one JPEG image per frame.
    Mjpeg,
}

/// A fully determined stream format: immutable once negotiated.
#[derive(Clone, Copy, Debug, PartialEq, Eq, Structural)]
pub struct CaptureFormat {
    pub width: u32,
    pub height: u32,
    /// Frames per second; strictly positive for any format this source accepts.
    pub frame_rate: u32,
    pub encoding: PixelEncoding,
}

/// Width of the one format this source supports.
pub const TARGET_WIDTH: u32 = 800;

/// Height of the one format this source supports.
pub const TARGET_HEIGHT: u32 = 400;

/// Frame rate of the one format this source supports, in frames per second.
pub const TARGET_FRAME_RATE: u32 = 90;

/// The one format this source requests from the device and advertises
/// to the hosting pipeline.
pub open spec fn spec_target_format() -> CaptureFormat {
    CaptureFormat {
        width: TARGET_WIDTH,
        height: TARGET_HEIGHT,
        frame_rate: TARGET_FRAME_RATE,
        encoding: PixelEncoding::Mjpeg,
    }
}

/// A format is well formed when every dimension is positive.
pub open spec fn format_ok(f: CaptureFormat) -> bool {
    f.width > 0 && f.height > 0 && f.frame_rate > 0
}

/// A proposed format is compatible with the fixed target exactly when it
/// agrees with it field for field: the source cannot reconfigure the device.
pub open spec fn compatible_with_target(proposed: CaptureFormat, target: CaptureFormat) -> bool {
    proposed == target
}

/// The fixed format this source supports.
pub fn target_format() -> (f: CaptureFormat)
    ensures
        f == spec_target_format(),
        format_ok(f),
{
    CaptureFormat {
        width: TARGET_WIDTH,
        height: TARGET_HEIGHT,
        frame_rate: TARGET_FRAME_RATE,
        encoding: PixelEncoding::Mjpeg,
    }
}

/// Whether `proposed` may be accepted in place of `target`.
pub fn formats_compatible(proposed: &CaptureFormat, target: &CaptureFormat) -> (r: bool)
    ensures
        r == compatible_with_target(*proposed, *target),
{
    proposed.width == target.width && proposed.height == target.height
        && proposed.frame_rate == target.frame_rate && proposed.encoding == target.encoding
}

} // verus!
