//! Decoding of the kernel's "get stream parameters" response.
//!
//! The response is one type word followed by a 200-byte payload that the
//! kernel declares as an untagged union of capture-mode parameters,
//! output-mode parameters and raw bytes. The request this crate's callers
//! issue is always the capture-mode "get" request, so the kernel populates
//! the capture branch exclusively; that invariant is carried here rather
//! than trusted from data inside the union, and only the capture branch
//! is ever read.
//!
//! Frame timing comes back as a frame *interval* — seconds per frame, an
//! integer fraction. The frame *rate* is its multiplicative inverse, and
//! both stay exact rationals throughout.

use vstd::bytes::{spec_u32_from_le_bytes, u32_from_le_bytes};
use vstd::prelude::*;
use vstd::slice::slice_subrange;

use crate::config::framerate::reduce;
use crate::config::Framerate;

verus! {

/// The exact size of the kernel's stream-parameter response, in bytes.
pub const STREAM_PARM_LEN: usize = 204;

/// The kernel's stream parameters, decoded from the capture-mode branch
/// of its response.
pub struct V4l2StreamParm {
    stream_type: u32,
    capability: u32,
    capture_mode: u32,
    time_per_frame_numerator: u32,
    time_per_frame_denominator: u32,
    extended_mode: u32,
    read_buffers: u32,
}

impl V4l2StreamParm {
    /// The buffer-type word that precedes the payload.
    pub closed spec fn spec_stream_type(self) -> u32 {
        self.stream_type
    }

    /// The capture-mode capability and mode words.
    pub closed spec fn spec_modes(self) -> (u32, u32, u32) {
        (self.capability, self.capture_mode, self.extended_mode)
    }

    /// The frame interval as the kernel reports it: numerator and
    /// denominator of a fraction of seconds per frame.
    pub closed spec fn spec_time_per_frame(self) -> (u32, u32) {
        (self.time_per_frame_numerator, self.time_per_frame_denominator)
    }

    /// The driver's buffer count.
    pub closed spec fn spec_read_buffers(self) -> u32 {
        self.read_buffers
    }

    /// Decodes the kernel's stream-parameter response buffer.
    ///
    /// The buffer must have exactly the documented size. Only the
    /// capture-mode interpretation of the payload union is read; its
    /// reserved words are left uninterpreted.
    pub fn decode(buf: &[u8]) -> (r: Option<V4l2StreamParm>)
        ensures
            r is Some <==> buf@.len() == STREAM_PARM_LEN,
            r matches Some(parm) ==> {
                &&& parm.spec_stream_type() == spec_u32_from_le_bytes(buf@.subrange(0, 4))
                &&& parm.spec_modes() == (
                    spec_u32_from_le_bytes(buf@.subrange(4, 8)),
                    spec_u32_from_le_bytes(buf@.subrange(8, 12)),
                    spec_u32_from_le_bytes(buf@.subrange(20, 24)),
                )
                &&& parm.spec_time_per_frame() == (
                    spec_u32_from_le_bytes(buf@.subrange(12, 16)),
                    spec_u32_from_le_bytes(buf@.subrange(16, 20)),
                )
                &&& parm.spec_read_buffers() == spec_u32_from_le_bytes(buf@.subrange(24, 28))
            },
    {
        if buf.len() != STREAM_PARM_LEN {
            return None;
        }
        let parm = V4l2StreamParm {
            stream_type: u32_from_le_bytes(slice_subrange(buf, 0, 4)),
            capability: u32_from_le_bytes(slice_subrange(buf, 4, 8)),
            capture_mode: u32_from_le_bytes(slice_subrange(buf, 8, 12)),
            time_per_frame_numerator: u32_from_le_bytes(slice_subrange(buf, 12, 16)),
            time_per_frame_denominator: u32_from_le_bytes(slice_subrange(buf, 16, 20)),
            extended_mode: u32_from_le_bytes(slice_subrange(buf, 20, 24)),
            read_buffers: u32_from_le_bytes(slice_subrange(buf, 24, 28)),
        };
        Some(parm)
    }

    /// Gets the frame interval: the exact reduced fraction of seconds per
    /// frame.
    pub fn get_frame_interval(&self) -> (r: Framerate)
        ensures
            (r.spec_num() as nat, r.spec_den() as nat) == reduce(
                self.spec_time_per_frame().0 as nat,
                self.spec_time_per_frame().1 as nat,
            ),
    {
        Framerate::new(
            self.time_per_frame_numerator as u64,
            self.time_per_frame_denominator as u64,
        )
    }

    /// Creates a frame rate from the internal frame interval.
    ///
    /// A frame rate is the multiplicative inverse of the frame interval.
    pub fn get_frame_rate(&self) -> (r: Framerate)
        ensures
            (r.spec_den() as nat, r.spec_num() as nat) == reduce(
                self.spec_time_per_frame().0 as nat,
                self.spec_time_per_frame().1 as nat,
            ),
    {
        self.get_frame_interval().recip()
    }
}

} // verus!
