//! The capability descriptor: generic device information reported by the
//! driver.

use vstd::prelude::*;

use crate::bytestr::{byte_array_to_str, field_decodes, spec_field_text};
use crate::codec::{spec_u32_at, BufType};
use crate::error::StreamError;
use crate::CapabilityFlags;

verus! {

/// Total size in bytes of an encoded capability descriptor: a 16-byte driver
/// name, a 32-byte card name, a 32-byte bus-location string (all zero-padded
/// text), a version word, the two capability bit-sets and twelve reserved
/// bytes.
pub const CAPABILITY_SIZE: usize = 104;

/// Capability flag: the device can capture video.
pub const CAP_VIDEO_CAPTURE: u32 = 0x1;

/// Capability flag: the device can emit video.
pub const CAP_VIDEO_OUTPUT: u32 = 0x2;

/// Capability flag: the device supports overlay windows.
pub const CAP_VIDEO_OVERLAY: u32 = 0x4;

/// Capability flag: the device can capture metadata.
pub const CAP_META_CAPTURE: u32 = 0x800000;

/// Capability flag: the device can emit metadata.
pub const CAP_META_OUTPUT: u32 = 0x8000000;

/// Capability flag: the device supports direct reads and writes.
pub const CAP_READWRITE: u32 = 0x1000000;

/// Capability flag: the device supports the streaming buffer exchange.
pub const CAP_STREAMING: u32 = 0x4000000;

/// Capability flag: the device can capture multi-planar video.
pub const CAP_VIDEO_CAPTURE_MPLANE: u32 = 0x1000;

/// Capability flag: the device can emit multi-planar video.
pub const CAP_VIDEO_OUTPUT_MPLANE: u32 = 0x2000;

/// Capability flag: the per-handle capability set is reported separately.
pub const CAP_DEVICE_CAPS: u32 = 0x80000000;

/// True when every flag of `mask` is raised in `bits`.
pub open spec fn has_cap(bits: u32, mask: u32) -> bool {
    bits & mask == mask
}

/// The buffer types a handle with capability bits `bits` can stream, in a
/// fixed order.
pub open spec fn spec_supported_buf_types(bits: u32) -> Seq<BufType> {
    (if has_cap(bits, CAP_VIDEO_CAPTURE) {
        seq![BufType::VideoCapture]
    } else {
        Seq::empty()
    }) + (if has_cap(bits, CAP_VIDEO_OUTPUT) {
        seq![BufType::VideoOutput]
    } else {
        Seq::empty()
    }) + (if has_cap(bits, CAP_VIDEO_OVERLAY) {
        seq![BufType::VideoOverlay]
    } else {
        Seq::empty()
    }) + (if has_cap(bits, CAP_VIDEO_CAPTURE_MPLANE) {
        seq![BufType::VideoCaptureMplane]
    } else {
        Seq::empty()
    }) + (if has_cap(bits, CAP_VIDEO_OUTPUT_MPLANE) {
        seq![BufType::VideoOutputMplane]
    } else {
        Seq::empty()
    }) + (if has_cap(bits, CAP_META_CAPTURE) {
        seq![BufType::MetaCapture]
    } else {
        Seq::empty()
    }) + (if has_cap(bits, CAP_META_OUTPUT) {
        seq![BufType::MetaOutput]
    } else {
        Seq::empty()
    })
}

/// The buffer types a handle with the given capabilities can stream: one
/// entry per streaming-capability flag that is raised, in a fixed order.
pub fn supported_buf_types(caps: CapabilityFlags) -> (r: Vec<BufType>)
    ensures
        r@ == spec_supported_buf_types(caps.bits),
{
    let mut out: Vec<BufType> = Vec::new();
    if caps.bits & CAP_VIDEO_CAPTURE == CAP_VIDEO_CAPTURE {
        out.push(BufType::VideoCapture);
    }
    if caps.bits & CAP_VIDEO_OUTPUT == CAP_VIDEO_OUTPUT {
        out.push(BufType::VideoOutput);
    }
    if caps.bits & CAP_VIDEO_OVERLAY == CAP_VIDEO_OVERLAY {
        out.push(BufType::VideoOverlay);
    }
    if caps.bits & CAP_VIDEO_CAPTURE_MPLANE == CAP_VIDEO_CAPTURE_MPLANE {
        out.push(BufType::VideoCaptureMplane);
    }
    if caps.bits & CAP_VIDEO_OUTPUT_MPLANE == CAP_VIDEO_OUTPUT_MPLANE {
        out.push(BufType::VideoOutputMplane);
    }
    if caps.bits & CAP_META_CAPTURE == CAP_META_CAPTURE {
        out.push(BufType::MetaCapture);
    }
    if caps.bits & CAP_META_OUTPUT == CAP_META_OUTPUT {
        out.push(BufType::MetaOutput);
    }
    proof {
        assert(out@ =~= spec_supported_buf_types(caps.bits));
    }
    out
}

/// The text bytes of the driver-name field of a capability record.
pub open spec fn spec_driver_field(bytes: Seq<u8>) -> Seq<u8> {
    bytes.subrange(0, 16)
}

/// The text bytes of the card-name field of a capability record.
pub open spec fn spec_card_field(bytes: Seq<u8>) -> Seq<u8> {
    bytes.subrange(16, 48)
}

/// The text bytes of the bus-location field of a capability record.
pub open spec fn spec_bus_field(bytes: Seq<u8>) -> Seq<u8> {
    bytes.subrange(48, 80)
}

/// Generic device information, decoded from the driver's answer to the
/// "query capabilities" control request.
#[derive(Debug)]
pub struct Capabilities {
    /// The identifier of the driver providing the device.
    pub driver_text: String,
    /// The card or device name.
    pub card_text: String,
    /// Where on the system the device is attached.
    pub bus_info_text: String,
    /// The driver's version word.
    pub version: u32,
    /// Every capability the underlying hardware exposes.
    pub capabilities: CapabilityFlags,
    /// The capabilities available through the opened handle, where reported.
    pub device_caps: CapabilityFlags,
}

impl Capabilities {
    /// Returns the identifier of the driver that provides this device.
    pub fn driver(&self) -> (r: &str)
        ensures
            r@ == self.driver_text@,
    {
        self.driver_text.as_str()
    }

    /// Returns the card or device name.
    pub fn card(&self) -> (r: &str)
        ensures
            r@ == self.card_text@,
    {
        self.card_text.as_str()
    }

    /// Returns a description of where on the system the device is attached.
    pub fn bus_info(&self) -> (r: &str)
        ensures
            r@ == self.bus_info_text@,
    {
        self.bus_info_text.as_str()
    }

    /// Returns all capabilities the underlying hardware device exposes,
    /// including ones inaccessible through the opened device node.
    pub fn all_capabilities(&self) -> (r: CapabilityFlags)
        ensures
            r == self.capabilities,
    {
        self.capabilities
    }

    /// Returns the capabilities available through the currently opened
    /// device node: the per-handle set when the driver reports one, and the
    /// hardware set otherwise.
    pub fn device_capabilities(&self) -> (r: CapabilityFlags)
        ensures
            r == if self.capabilities.bits & CAP_DEVICE_CAPS == CAP_DEVICE_CAPS {
                self.device_caps
            } else {
                self.capabilities
            },
    {
        if self.capabilities.contains(CapabilityFlags { bits: CAP_DEVICE_CAPS }) {
            self.device_caps
        } else {
            self.capabilities
        }
    }
}

/// Decodes the driver's capability record.
///
/// The three text fields are fixed-width, zero-padded UTF-8 (in practice
/// ASCII); a field without a terminator indicates a layout mismatch with the
/// running driver and is a `MalformedResponse`, never a recoverable
/// condition, as is text that is not UTF-8 or a record of the wrong size.
pub fn decode_capabilities(bytes: &[u8]) -> (r: Result<Capabilities, StreamError>)
    ensures
        r is Ok <==> (bytes@.len() == CAPABILITY_SIZE && field_decodes(spec_driver_field(bytes@))
            && field_decodes(spec_card_field(bytes@)) && field_decodes(spec_bus_field(bytes@))),
        r matches Ok(c) ==> {
            &&& c.driver_text@ == spec_field_text(spec_driver_field(bytes@))
            &&& c.card_text@ == spec_field_text(spec_card_field(bytes@))
            &&& c.bus_info_text@ == spec_field_text(spec_bus_field(bytes@))
            &&& c.version == spec_u32_at(bytes@, 80)
            &&& c.capabilities.bits == spec_u32_at(bytes@, 84)
            &&& c.device_caps.bits == spec_u32_at(bytes@, 88)
        },
        r matches Err(e) ==> e == StreamError::MalformedResponse,
{
    let n = bytes.len();
    if n != CAPABILITY_SIZE {
        return Err(StreamError::MalformedResponse);
    }
    let driver_text = match byte_array_to_str(vstd::slice::slice_subrange(bytes, 0, 16)) {
        Ok(s) => s,
        Err(_) => {
            return Err(StreamError::MalformedResponse);
        },
    };
    let card_text = match byte_array_to_str(vstd::slice::slice_subrange(bytes, 16, 48)) {
        Ok(s) => s,
        Err(_) => {
            return Err(StreamError::MalformedResponse);
        },
    };
    let bus_info_text = match byte_array_to_str(vstd::slice::slice_subrange(bytes, 48, 80)) {
        Ok(s) => s,
        Err(_) => {
            return Err(StreamError::MalformedResponse);
        },
    };
    Ok(
        Capabilities {
            driver_text,
            card_text,
            bus_info_text,
            version: crate::codec::read_u32_at(bytes, 80),
            capabilities: CapabilityFlags { bits: crate::codec::read_u32_at(bytes, 84) },
            device_caps: CapabilityFlags { bits: crate::codec::read_u32_at(bytes, 88) },
        },
    )
}

} // verus!
