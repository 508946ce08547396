//! Fixed-size raw frame protocol.
//!
//! The decoder subprocess writes unframed RGBA pixels to its standard
//! output: each frame is exactly `PREVIEW_WIDTH * PREVIEW_HEIGHT * 4` bytes,
//! row-major, unmultiplied alpha, no header. Producer and consumer agree on
//! the dimensions out of band, through the constants below.

use vstd::prelude::*;

verus! {

/// Width, in pixels, of every preview frame.
pub const PREVIEW_WIDTH: u32 = 640;

/// Height, in pixels, of every preview frame.
pub const PREVIEW_HEIGHT: u32 = 360;

/// Exact byte length of one raw RGBA frame: width * height * 4.
pub const FRAME_BYTES: usize = 640 * 360 * 4;

/// An owned pixel buffer of fixed dimensions plus the nominal timestamp it
/// represents, relative to the trimmed window. Ownership transfers to the
/// consumer on delivery.
pub struct DecodedFrame {
    /// Raw RGBA pixel data, exactly `FRAME_BYTES` bytes when well formed.
    pub pixels: Vec<u8>,
    /// Nominal position of the frame within the trimmed window.
    pub timestamp_ms: u32,
}

impl DecodedFrame {
    /// Every frame that crosses the worker boundary satisfies this:
    /// the pixel buffer holds exactly one full frame.
    pub open spec fn wf(&self) -> bool {
        self.pixels@.len() == FRAME_BYTES
    }
}

/// Byte value at offset `i` of the blank (opaque black) frame:
/// alpha bytes are 255, colour bytes are 0.
pub open spec fn blank_byte(i: int) -> u8 {
    if i % 4 == 3 {
        255u8
    } else {
        0u8
    }
}

/// Wraps a raw buffer read from the decoder as a frame, refusing any buffer
/// that is not exactly one frame long. Both the continuous and the one-shot
/// decode paths go through here, so no short read ever becomes a frame.
pub fn frame_from_rgba(pixels: Vec<u8>, timestamp_ms: u32) -> (r: Option<DecodedFrame>)
    ensures
        r is Some <==> pixels@.len() == FRAME_BYTES,
        r is Some ==> {
            &&& r->Some_0.wf()
            &&& r->Some_0.pixels@ == pixels@
            &&& r->Some_0.timestamp_ms == timestamp_ms
        },
{
    if pixels.len() == FRAME_BYTES {
        Some(DecodedFrame { pixels, timestamp_ms })
    } else {
        None
    }
}

/// The cleared frame emitted once when continuous playback ends: opaque
/// black at full frame size, timestamp zero.
pub fn blank_frame() -> (f: DecodedFrame)
    ensures
        f.wf(),
        f.timestamp_ms == 0,
        forall|i: int| 0 <= i < f.pixels@.len() ==> f.pixels@[i] == blank_byte(i),
{
    let mut pixels: Vec<u8> = Vec::new();
    let mut i: usize = 0;
    while i < FRAME_BYTES
        invariant
            i <= FRAME_BYTES,
            pixels@.len() == i,
            forall|j: int| 0 <= j < i ==> pixels@[j] == blank_byte(j),
        decreases FRAME_BYTES - i,
    {
        if i % 4 == 3 {
            pixels.push(255u8);
        } else {
            pixels.push(0u8);
        }
        i = i + 1;
    }
    DecodedFrame { pixels, timestamp_ms: 0 }
}

} // verus!
