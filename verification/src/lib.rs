//! Verified core of a Linux video (V4L2-style) device library.
//!
//! The crate covers the pieces of such a library that are pure logic: the
//! control-request codec (exact byte layouts of capability, format and buffer
//! descriptors), the buffer pool that tracks the shared-memory slots exchanged
//! with the driver, and the streaming state machines that sequence the
//! request/submit/retrieve cycle. All device I/O (opening device nodes,
//! issuing the control requests, mapping memory) lives outside this crate;
//! callers perform it and feed the driver's replies back in as plain values.

use vstd::prelude::*;

pub mod bytestr;
pub mod caps;
pub mod codec;
pub mod error;
pub mod pixelformat;
pub mod pool;
pub mod ports;
pub mod stream;

pub use caps::Capabilities;
pub use codec::{
    BufType, BufferDesc, Format, Fract, Memory, MetaFormat, OverlayFormat, PixFormat,
    PixFormatMplane, PlaneBank, PlaneFormat,
};
pub use error::StreamError;
pub use pixelformat::Pixelformat;
pub use ports::{
    AnalogStd, Input, InputCapabilities, InputIter, InputStatus, InputType, Output,
    OutputCapabilities, OutputIter, OutputType,
};
pub use stream::{ReadStream, WriteStream};

verus! {

/// Flags describing which operations a device handle supports.
#[derive(Clone, Copy, PartialEq, Eq, Structural, Debug)]
pub struct CapabilityFlags {
    /// One bit per capability.
    pub bits: u32,
}

impl CapabilityFlags {
    /// The flag set with no flag raised.
    pub fn empty() -> (r: CapabilityFlags)
        ensures
            r.bits == 0,
    {
        CapabilityFlags { bits: 0 }
    }

    /// True when every flag of `other` is raised in `self`.
    pub fn contains(&self, other: CapabilityFlags) -> (r: bool)
        ensures
            r == (self.bits & other.bits == other.bits),
    {
        self.bits & other.bits == other.bits
    }
}

/// True when `s` begins with `p`.
pub open spec fn spec_starts_with(s: Seq<u8>, p: Seq<u8>) -> bool {
    s.len() >= p.len() && s.subrange(0, p.len() as int) == p
}

/// The bytes of the device-node prefix `video`.
pub open spec fn prefix_video() -> Seq<u8> {
    seq!['v' as u8, 'i' as u8, 'd' as u8, 'e' as u8, 'o' as u8]
}

/// The bytes of the device-node prefix `vbi`.
pub open spec fn prefix_vbi() -> Seq<u8> {
    seq!['v' as u8, 'b' as u8, 'i' as u8]
}

/// The bytes of the device-node prefix `radio`.
pub open spec fn prefix_radio() -> Seq<u8> {
    seq!['r' as u8, 'a' as u8, 'd' as u8, 'i' as u8, 'o' as u8]
}

/// The bytes of the device-node prefix `swradio`.
pub open spec fn prefix_swradio() -> Seq<u8> {
    seq!['s' as u8, 'w' as u8, 'r' as u8, 'a' as u8, 'd' as u8, 'i' as u8, 'o' as u8]
}

/// The bytes of the device-node prefix `v4l-touch`.
pub open spec fn prefix_v4l_touch() -> Seq<u8> {
    seq![
        'v' as u8,
        '4' as u8,
        'l' as u8,
        '-' as u8,
        't' as u8,
        'o' as u8,
        'u' as u8,
        'c' as u8,
        'h' as u8,
    ]
}

/// The bytes of the device-node prefix `v4l-subdev`.
pub open spec fn prefix_v4l_subdev() -> Seq<u8> {
    seq![
        'v' as u8,
        '4' as u8,
        'l' as u8,
        '-' as u8,
        's' as u8,
        'u' as u8,
        'b' as u8,
        'd' as u8,
        'e' as u8,
        'v' as u8,
    ]
}

/// True when a file name under the device directory names a video device
/// node: it starts with one of the known prefixes.
pub open spec fn spec_is_video_device_name(name: Seq<u8>) -> bool {
    ||| spec_starts_with(name, prefix_video())
    ||| spec_starts_with(name, prefix_vbi())
    ||| spec_starts_with(name, prefix_radio())
    ||| spec_starts_with(name, prefix_swradio())
    ||| spec_starts_with(name, prefix_v4l_touch())
    ||| spec_starts_with(name, prefix_v4l_subdev())
}

/// True when `name` begins with the bytes of `prefix`.
fn starts_with(name: &[u8], prefix: &Vec<u8>) -> (r: bool)
    ensures
        r == spec_starts_with(name@, prefix@),
{
    let np = prefix.len();
    if name.len() < np {
        return false;
    }
    let mut i: usize = 0;
    while i < np
        invariant
            np == prefix@.len(),
            np <= name@.len(),
            0 <= i <= np,
            forall|j: int| 0 <= j < i ==> name@[j] == prefix@[j],
        decreases np - i,
    {
        if *vstd::slice::slice_index_get(name, i) != prefix[i] {
            proof {
                assert(name@.subrange(0, np as int)[i as int] != prefix@[i as int]);
            }
            return false;
        }
        i = i + 1;
    }
    proof {
        assert(name@.subrange(0, np as int) =~= prefix@);
    }
    true
}

/// Decides whether a file name under the device directory belongs to a
/// video device node, by the set of name prefixes such nodes are created
/// under.
pub fn is_video_device_name(name: &[u8]) -> (r: bool)
    ensures
        r == spec_is_video_device_name(name@),
{
    let mut p: Vec<u8> = Vec::new();
    p.push('v' as u8);
    p.push('i' as u8);
    p.push('d' as u8);
    p.push('e' as u8);
    p.push('o' as u8);
    proof {
        assert(p@ =~= prefix_video());
    }
    if starts_with(name, &p) {
        return true;
    }
    let mut p: Vec<u8> = Vec::new();
    p.push('v' as u8);
    p.push('b' as u8);
    p.push('i' as u8);
    proof {
        assert(p@ =~= prefix_vbi());
    }
    if starts_with(name, &p) {
        return true;
    }
    let mut p: Vec<u8> = Vec::new();
    p.push('r' as u8);
    p.push('a' as u8);
    p.push('d' as u8);
    p.push('i' as u8);
    p.push('o' as u8);
    proof {
        assert(p@ =~= prefix_radio());
    }
    if starts_with(name, &p) {
        return true;
    }
    let mut p: Vec<u8> = Vec::new();
    p.push('s' as u8);
    p.push('w' as u8);
    p.push('r' as u8);
    p.push('a' as u8);
    p.push('d' as u8);
    p.push('i' as u8);
    p.push('o' as u8);
    proof {
        assert(p@ =~= prefix_swradio());
    }
    if starts_with(name, &p) {
        return true;
    }
    let mut p: Vec<u8> = Vec::new();
    p.push('v' as u8);
    p.push('4' as u8);
    p.push('l' as u8);
    p.push('-' as u8);
    p.push('t' as u8);
    p.push('o' as u8);
    p.push('u' as u8);
    p.push('c' as u8);
    p.push('h' as u8);
    proof {
        assert(p@ =~= prefix_v4l_touch());
    }
    if starts_with(name, &p) {
        return true;
    }
    let mut p: Vec<u8> = Vec::new();
    p.push('v' as u8);
    p.push('4' as u8);
    p.push('l' as u8);
    p.push('-' as u8);
    p.push('s' as u8);
    p.push('u' as u8);
    p.push('b' as u8);
    p.push('d' as u8);
    p.push('e' as u8);
    p.push('v' as u8);
    proof {
        assert(p@ =~= prefix_v4l_subdev());
    }
    starts_with(name, &p)
}

} // verus!
