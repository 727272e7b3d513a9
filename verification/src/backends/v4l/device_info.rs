//! Decoding of the kernel's "get device info" control response.
//!
//! The control node answers the device-info request with one fixed-layout
//! record: driver name (16 bytes), model (32), serial (40), bus info (32),
//! three little-endian 32-bit version words, and 31 reserved words that
//! must be treated as opaque. The raw buffer never leaves this module:
//! `MediaDeviceInfo::decode` validates the size and extracts the fields,
//! and the text accessors interpret the byte fields as null-terminated
//! strings, substituting a fixed sentinel when the bytes are not valid
//! text rather than failing a whole identity lookup.

use vstd::bytes::{spec_u32_from_le_bytes, u32_from_le_bytes};
use vstd::prelude::*;
use vstd::slice::{slice_subrange, slice_to_vec};
use vstd::utf8::{decode_utf8, valid_utf8};

verus! {

/// The exact size of the kernel's device-info response, in bytes.
pub const DEVICE_INFO_LEN: usize = 256;

/// The index of the first NUL byte of `b`, or `b.len()` if there is none.
pub open spec fn first_nul(b: Seq<u8>) -> int
    decreases b.len(),
{
    if b.len() == 0 {
        0
    } else if b[0] == 0 {
        0
    } else {
        1 + first_nul(b.drop_first())
    }
}

/// Characterizes `first_nul` by its defining properties.
pub proof fn lemma_first_nul_is(b: Seq<u8>, i: int)
    requires
        0 <= i <= b.len(),
        forall|j: int| 0 <= j < i ==> b[j] != 0,
        i < b.len() ==> b[i] == 0,
    ensures
        first_nul(b) == i,
    decreases b.len(),
{
    if b.len() > 0 && b[0] != 0 {
        lemma_first_nul_is(b.drop_first(), i - 1);
    }
}

/// The bytes of `b` before its first NUL: how a fixed-size field holds a
/// null-terminated string.
pub open spec fn nul_prefix(b: Seq<u8>) -> Seq<u8> {
    b.take(first_nul(b))
}

/// The text of the bytes `b`, or `sentinel` where they are not valid
/// UTF-8.
pub open spec fn text_or_sentinel(b: Seq<u8>, sentinel: Seq<char>) -> Seq<char> {
    if valid_utf8(b) {
        decode_utf8(b)
    } else {
        sentinel
    }
}

/// Relies on `core::str::from_utf8`: it accepts exactly the valid UTF-8
/// byte sequences and yields the string of those bytes, whose characters
/// are their decoding.
#[verifier::external_body]
fn utf8_to_string(bytes: &[u8]) -> (r: Option<String>)
    ensures
        r is Some <==> valid_utf8(bytes@),
        r matches Some(s) ==> s@ == decode_utf8(bytes@),
{
    core::str::from_utf8(bytes).ok().map(|s| s.to_string())
}

/// Extracts the bytes of `b` before its first NUL.
fn nul_prefix_of(b: &[u8]) -> (r: Vec<u8>)
    ensures
        r@ == nul_prefix(b@),
{
    let len = b.len();
    let mut i: usize = 0;
    while i < len && b[i] != 0
        invariant
            0 <= i <= len,
            len == b@.len(),
            forall|j: int| 0 <= j < i ==> b@[j] != 0,
        decreases len - i,
    {
        i = i + 1;
    }
    proof {
        lemma_first_nul_is(b@, i as int);
    }
    let prefix = slice_subrange(b, 0, i);
    slice_to_vec(prefix)
}

/// Information about a Linux media device, decoded from the kernel's
/// device-info control response.
pub struct MediaDeviceInfo {
    driver: Vec<u8>,
    model: Vec<u8>,
    serial: Vec<u8>,
    bus_info: Vec<u8>,
    media_version: u32,
    hw_revision: u32,
    driver_version: u32,
}

impl MediaDeviceInfo {
    /// Each byte field keeps exactly the width the kernel's layout gives
    /// it.
    #[verifier::type_invariant]
    pub closed spec fn wf(self) -> bool {
        self.driver@.len() == 16 && self.model@.len() == 32 && self.serial@.len() == 40
            && self.bus_info@.len() == 32
    }

    /// The raw driver-name field.
    pub closed spec fn spec_driver_bytes(self) -> Seq<u8> {
        self.driver@
    }

    /// The raw model field.
    pub closed spec fn spec_model_bytes(self) -> Seq<u8> {
        self.model@
    }

    /// The raw serial field.
    pub closed spec fn spec_serial_bytes(self) -> Seq<u8> {
        self.serial@
    }

    /// The raw bus-info field.
    pub closed spec fn spec_bus_info_bytes(self) -> Seq<u8> {
        self.bus_info@
    }

    /// The three version words, in layout order.
    pub closed spec fn spec_versions(self) -> (u32, u32, u32) {
        (self.media_version, self.hw_revision, self.driver_version)
    }

    /// Decodes the kernel's device-info response buffer.
    ///
    /// The buffer must have exactly the documented size; the reserved
    /// words at its tail are left uninterpreted.
    pub fn decode(buf: &[u8]) -> (r: Option<MediaDeviceInfo>)
        ensures
            r is Some <==> buf@.len() == DEVICE_INFO_LEN,
            r matches Some(info) ==> {
                &&& info.spec_driver_bytes() == buf@.subrange(0, 16)
                &&& info.spec_model_bytes() == buf@.subrange(16, 48)
                &&& info.spec_serial_bytes() == buf@.subrange(48, 88)
                &&& info.spec_bus_info_bytes() == buf@.subrange(88, 120)
                &&& info.spec_versions() == (
                    spec_u32_from_le_bytes(buf@.subrange(120, 124)),
                    spec_u32_from_le_bytes(buf@.subrange(124, 128)),
                    spec_u32_from_le_bytes(buf@.subrange(128, 132)),
                )
            },
    {
        if buf.len() != DEVICE_INFO_LEN {
            return None;
        }
        let info = MediaDeviceInfo {
            driver: slice_to_vec(slice_subrange(buf, 0, 16)),
            model: slice_to_vec(slice_subrange(buf, 16, 48)),
            serial: slice_to_vec(slice_subrange(buf, 48, 88)),
            bus_info: slice_to_vec(slice_subrange(buf, 88, 120)),
            media_version: u32_from_le_bytes(slice_subrange(buf, 120, 124)),
            hw_revision: u32_from_le_bytes(slice_subrange(buf, 124, 128)),
            driver_version: u32_from_le_bytes(slice_subrange(buf, 128, 132)),
        };
        Some(info)
    }

    /// The device's model, read from the model field as a null-terminated
    /// string; a fixed sentinel when the field holds invalid text.
    pub fn model(&self) -> (r: String)
        ensures
            r@ == text_or_sentinel(
                nul_prefix(self.spec_model_bytes()),
                "Model was not valid UTF-8"@,
            ),
    {
        let prefix = nul_prefix_of(self.model.as_slice());
        match utf8_to_string(prefix.as_slice()) {
            Some(s) => s,
            None => String::from_str("Model was not valid UTF-8"),
        }
    }

    /// The device's serial, read from the serial field as a
    /// null-terminated string; a fixed sentinel when the field holds
    /// invalid text.
    pub fn serial(&self) -> (r: String)
        ensures
            r@ == text_or_sentinel(
                nul_prefix(self.spec_serial_bytes()),
                "Serial was not valid UTF-8"@,
            ),
    {
        let prefix = nul_prefix_of(self.serial.as_slice());
        match utf8_to_string(prefix.as_slice()) {
            Some(s) => s,
            None => String::from_str("Serial was not valid UTF-8"),
        }
    }
}

} // verus!
