//! Exact binary layouts of the control-request payloads exchanged with the
//! driver: format descriptors, buffer descriptors and streaming parameters.
//!
//! All multi-byte fields are little-endian, and every record follows the
//! kernel's published structure layout, member for member, so that the raw
//! bytes of a control-request reply can be handed straight to these
//! decoders. A format descriptor occupies [`FORMAT_SIZE`] bytes: the
//! buffer-type tag in the first four bytes, four alignment bytes, and then a
//! [`FORMAT_PAYLOAD_SIZE`]-byte union area whose interpretation is keyed by
//! the tag; members this library does not model (interlacing, colorimetry
//! details, timecodes) are written as zero and ignored on decode. Decoding
//! validates every tag and never guesses: a discriminant outside the known
//! set is a `MalformedResponse`.

use vstd::prelude::*;

use vstd::bytes::{
    lemma_auto_spec_u32_to_from_le_bytes, lemma_auto_spec_u64_to_from_le_bytes,
    spec_u32_from_le_bytes, spec_u32_to_le_bytes, spec_u64_from_le_bytes, spec_u64_to_le_bytes,
    u32_from_le_bytes, u32_to_le_bytes, u64_from_le_bytes, u64_to_le_bytes,
};

use crate::error::StreamError;
use crate::pixelformat::Pixelformat;

verus! {

/// Total size in bytes of an encoded format descriptor.
pub const FORMAT_SIZE: usize = 208;

/// Size in bytes of the tagged payload area of a format descriptor.
pub const FORMAT_PAYLOAD_SIZE: usize = 200;

/// Total size in bytes of an encoded buffer descriptor.
pub const BUFFER_DESC_SIZE: usize = 88;

/// Total size in bytes of an encoded streaming-parameter record.
pub const STREAM_PARM_SIZE: usize = 204;

/// Streaming-parameter capability flag: the driver honours a requested time
/// per frame.
pub const PARM_CAP_TIMEPERFRAME: u32 = 0x1000;

/// Tag selecting which logical stream a control request applies to.
#[derive(Clone, Copy, PartialEq, Eq, Structural, Debug)]
pub enum BufType {
    /// Video capture stream (device to application).
    VideoCapture,
    /// Video output stream (application to device).
    VideoOutput,
    /// Video overlay window.
    VideoOverlay,
    /// Multi-planar video capture stream.
    VideoCaptureMplane,
    /// Multi-planar video output stream.
    VideoOutputMplane,
    /// Metadata capture stream.
    MetaCapture,
    /// Metadata output stream.
    MetaOutput,
}

impl BufType {
    /// The numeric code this tag is written as on the wire.
    pub open spec fn spec_code(self) -> u32 {
        match self {
            BufType::VideoCapture => 1,
            BufType::VideoOutput => 2,
            BufType::VideoOverlay => 3,
            BufType::VideoCaptureMplane => 9,
            BufType::VideoOutputMplane => 10,
            BufType::MetaCapture => 13,
            BufType::MetaOutput => 14,
        }
    }

    /// Writes the tag as its numeric code.
    #[verifier::when_used_as_spec(spec_code)]
    pub fn code(self) -> (r: u32)
        ensures
            r == self.spec_code(),
    {
        match self {
            BufType::VideoCapture => 1,
            BufType::VideoOutput => 2,
            BufType::VideoOverlay => 3,
            BufType::VideoCaptureMplane => 9,
            BufType::VideoOutputMplane => 10,
            BufType::MetaCapture => 13,
            BufType::MetaOutput => 14,
        }
    }

    /// The tag a numeric code stands for, if the code is known.
    pub open spec fn spec_from_code(code: u32) -> Option<BufType> {
        if code == 1 {
            Some(BufType::VideoCapture)
        } else if code == 2 {
            Some(BufType::VideoOutput)
        } else if code == 3 {
            Some(BufType::VideoOverlay)
        } else if code == 9 {
            Some(BufType::VideoCaptureMplane)
        } else if code == 10 {
            Some(BufType::VideoOutputMplane)
        } else if code == 13 {
            Some(BufType::MetaCapture)
        } else if code == 14 {
            Some(BufType::MetaOutput)
        } else {
            None
        }
    }

    /// Reads a tag back from its numeric code; an unknown code yields `None`.
    pub fn from_code(code: u32) -> (r: Option<BufType>)
        ensures
            r == BufType::spec_from_code(code),
    {
        if code == 1 {
            Some(BufType::VideoCapture)
        } else if code == 2 {
            Some(BufType::VideoOutput)
        } else if code == 3 {
            Some(BufType::VideoOverlay)
        } else if code == 9 {
            Some(BufType::VideoCaptureMplane)
        } else if code == 10 {
            Some(BufType::VideoOutputMplane)
        } else if code == 13 {
            Some(BufType::MetaCapture)
        } else if code == 14 {
            Some(BufType::MetaOutput)
        } else {
            None
        }
    }

    /// True for the capture directions, where the device fills buffers.
    pub fn is_capture(self) -> (r: bool)
        ensures
            r == (self == BufType::VideoCapture || self == BufType::VideoCaptureMplane || self
                == BufType::MetaCapture),
    {
        match self {
            BufType::VideoCapture => true,
            BufType::VideoCaptureMplane => true,
            BufType::MetaCapture => true,
            _ => false,
        }
    }
}

/// How buffer memory is exchanged with the driver. Only shared-memory
/// mappings are implemented.
#[derive(Clone, Copy, PartialEq, Eq, Structural, Debug)]
pub enum Memory {
    /// The driver allocates the buffers and the application maps them.
    Mmap,
}

impl Memory {
    /// The numeric code this memory mode is written as on the wire.
    pub open spec fn spec_code(self) -> u32 {
        match self {
            Memory::Mmap => 1,
        }
    }

    /// Writes the memory mode as its numeric code.
    #[verifier::when_used_as_spec(spec_code)]
    pub fn code(self) -> (r: u32)
        ensures
            r == self.spec_code(),
    {
        match self {
            Memory::Mmap => 1,
        }
    }

    /// Reads a memory mode back from its numeric code.
    pub open spec fn spec_from_code(code: u32) -> Option<Memory> {
        if code == 1 {
            Some(Memory::Mmap)
        } else {
            None
        }
    }

    /// Reads a memory mode back from its numeric code; an unknown code
    /// yields `None`.
    pub fn from_code(code: u32) -> (r: Option<Memory>)
        ensures
            r == Memory::spec_from_code(code),
    {
        if code == 1 {
            Some(Memory::Mmap)
        } else {
            None
        }
    }
}

/// A negotiated single-planar pixel format.
#[derive(Clone, Copy, PartialEq, Eq, Structural, Debug)]
pub struct PixFormat {
    /// Image width in pixels.
    pub width: u32,
    /// Image height in pixels.
    pub height: u32,
    /// Four character code of the pixel encoding.
    pub pixelformat: Pixelformat,
    /// Distance in bytes between the leftmost pixels of two adjacent lines.
    pub bytesperline: u32,
    /// Size in bytes of a whole image.
    pub sizeimage: u32,
    /// Numeric code of the colorspace metadata.
    pub colorspace: u32,
}

/// A negotiated metadata format.
#[derive(Clone, Copy, PartialEq, Eq, Structural, Debug)]
pub struct MetaFormat {
    /// Four character code of the metadata encoding.
    pub dataformat: Pixelformat,
    /// Size in bytes of a whole metadata buffer.
    pub buffersize: u32,
}

/// The per-plane layout of one plane of a multi-planar pixel format.
#[derive(Clone, Copy, PartialEq, Eq, Structural, Debug)]
pub struct PlaneFormat {
    /// Size in bytes of the plane's whole image.
    pub sizeimage: u32,
    /// Distance in bytes between the leftmost pixels of two adjacent lines.
    pub bytesperline: u32,
}

impl PlaneFormat {
    /// A plane slot with nothing in it.
    pub open spec fn spec_empty() -> PlaneFormat {
        PlaneFormat { sizeimage: 0, bytesperline: 0 }
    }

    /// Writes a plane slot with nothing in it.
    pub fn empty() -> (r: PlaneFormat)
        ensures
            r == PlaneFormat::spec_empty(),
    {
        PlaneFormat { sizeimage: 0, bytesperline: 0 }
    }
}

/// How many plane slots a multi-planar format descriptor carries.
pub const MAX_PLANES: u32 = 8;

/// The fixed bank of plane slots of a multi-planar format: the first
/// `count` slots are meaningful, the rest are empty.
#[derive(Clone, Copy, PartialEq, Eq, Structural, Debug)]
pub struct PlaneBank {
    /// How many of the slots are in use; at most [`MAX_PLANES`].
    pub count: u32,
    /// The first plane slot.
    pub plane0: PlaneFormat,
    /// The second plane slot.
    pub plane1: PlaneFormat,
    /// The third plane slot.
    pub plane2: PlaneFormat,
    /// The fourth plane slot.
    pub plane3: PlaneFormat,
    /// The fifth plane slot.
    pub plane4: PlaneFormat,
    /// The sixth plane slot.
    pub plane5: PlaneFormat,
    /// The seventh plane slot.
    pub plane6: PlaneFormat,
    /// The eighth plane slot.
    pub plane7: PlaneFormat,
}

impl PlaneBank {
    /// True when the bank's used-slot count is within the fixed capacity.
    pub open spec fn wf(self) -> bool {
        self.count <= MAX_PLANES
    }
}

/// A negotiated multi-planar pixel format: one image spread over separate
/// memory planes, each with its own size and line stride.
#[derive(Clone, Copy, PartialEq, Eq, Structural, Debug)]
pub struct PixFormatMplane {
    /// Image width in pixels.
    pub width: u32,
    /// Image height in pixels.
    pub height: u32,
    /// Four character code of the pixel encoding.
    pub pixelformat: Pixelformat,
    /// Numeric code of the colorspace metadata.
    pub colorspace: u32,
    /// The planes the image is spread over.
    pub planes: PlaneBank,
}

/// A negotiated overlay window.
#[derive(Clone, Copy, PartialEq, Eq, Structural, Debug)]
pub struct OverlayFormat {
    /// Horizontal position of the window.
    pub left: u32,
    /// Vertical position of the window.
    pub top: u32,
    /// Window width in pixels.
    pub width: u32,
    /// Window height in pixels.
    pub height: u32,
    /// Chroma key for overlay blending.
    pub chromakey: u32,
}

/// A format descriptor: a tagged union keyed by buffer type.
#[derive(Clone, Copy, PartialEq, Eq, Structural, Debug)]
pub enum Format {
    /// Pixel format of a video capture stream.
    VideoCapture(PixFormat),
    /// Pixel format of a video output stream.
    VideoOutput(PixFormat),
    /// Overlay window format.
    VideoOverlay(OverlayFormat),
    /// Multi-planar pixel format of a video capture stream.
    VideoCaptureMplane(PixFormatMplane),
    /// Multi-planar pixel format of a video output stream.
    VideoOutputMplane(PixFormatMplane),
    /// Metadata format of a metadata capture stream.
    MetaCapture(MetaFormat),
    /// Metadata format of a metadata output stream.
    MetaOutput(MetaFormat),
}

impl Format {
    /// The buffer type whose code is written as this descriptor's tag.
    pub open spec fn spec_buf_type(self) -> BufType {
        match self {
            Format::VideoCapture(_) => BufType::VideoCapture,
            Format::VideoOutput(_) => BufType::VideoOutput,
            Format::VideoOverlay(_) => BufType::VideoOverlay,
            Format::VideoCaptureMplane(_) => BufType::VideoCaptureMplane,
            Format::VideoOutputMplane(_) => BufType::VideoOutputMplane,
            Format::MetaCapture(_) => BufType::MetaCapture,
            Format::MetaOutput(_) => BufType::MetaOutput,
        }
    }

    /// The buffer type this descriptor applies to.
    #[verifier::when_used_as_spec(spec_buf_type)]
    pub fn buf_type(self) -> (r: BufType)
        ensures
            r == self.spec_buf_type(),
    {
        match self {
            Format::VideoCapture(_) => BufType::VideoCapture,
            Format::VideoOutput(_) => BufType::VideoOutput,
            Format::VideoOverlay(_) => BufType::VideoOverlay,
            Format::VideoCaptureMplane(_) => BufType::VideoCaptureMplane,
            Format::VideoOutputMplane(_) => BufType::VideoOutputMplane,
            Format::MetaCapture(_) => BufType::MetaCapture,
            Format::MetaOutput(_) => BufType::MetaOutput,
        }
    }

    /// True when the descriptor's plane bank, if it has one, is within the
    /// fixed plane capacity.
    pub open spec fn wf(self) -> bool {
        match self {
            Format::VideoCaptureMplane(p) => p.planes.wf(),
            Format::VideoOutputMplane(p) => p.planes.wf(),
            _ => true,
        }
    }
}

/// A sequence of `n` zero bytes.
pub open spec fn zero_bytes(n: nat) -> Seq<u8> {
    Seq::new(n, |i: int| 0u8)
}

/// The payload bytes of a single-planar pixel format: width, height,
/// fourcc, the (unmodelled, zero) interlacing member, bytes-per-line, image
/// size and colorspace.
pub open spec fn spec_encode_pix(p: PixFormat) -> Seq<u8> {
    spec_u32_to_le_bytes(p.width) + spec_u32_to_le_bytes(p.height) + spec_u32_to_le_bytes(
        p.pixelformat.code,
    ) + zero_bytes(4) + spec_u32_to_le_bytes(p.bytesperline) + spec_u32_to_le_bytes(p.sizeimage)
        + spec_u32_to_le_bytes(p.colorspace)
}

/// The payload bytes of a metadata format.
pub open spec fn spec_encode_meta(m: MetaFormat) -> Seq<u8> {
    spec_u32_to_le_bytes(m.dataformat.code) + spec_u32_to_le_bytes(m.buffersize)
}

/// The payload bytes of one plane slot: image size, line stride and twelve
/// reserved zero bytes.
pub open spec fn spec_encode_plane(p: PlaneFormat) -> Seq<u8> {
    spec_u32_to_le_bytes(p.sizeimage) + spec_u32_to_le_bytes(p.bytesperline) + zero_bytes(12)
}

/// The payload bytes of a multi-planar pixel format: width, height, fourcc,
/// the (unmodelled, zero) interlacing member, colorspace, the eight plane
/// slots, and the plane count as a single byte.
pub open spec fn spec_encode_mplane(p: PixFormatMplane) -> Seq<u8> {
    spec_u32_to_le_bytes(p.width) + spec_u32_to_le_bytes(p.height) + spec_u32_to_le_bytes(
        p.pixelformat.code,
    ) + zero_bytes(4) + spec_u32_to_le_bytes(p.colorspace) + spec_encode_plane(p.planes.plane0)
        + spec_encode_plane(p.planes.plane1) + spec_encode_plane(p.planes.plane2)
        + spec_encode_plane(p.planes.plane3) + spec_encode_plane(p.planes.plane4)
        + spec_encode_plane(p.planes.plane5) + spec_encode_plane(p.planes.plane6)
        + spec_encode_plane(p.planes.plane7) + seq![p.planes.count as u8]
}

/// The payload bytes of an overlay window format: the window rectangle, the
/// (unmodelled, zero) interlacing member, and the chroma key.
pub open spec fn spec_encode_overlay(w: OverlayFormat) -> Seq<u8> {
    spec_u32_to_le_bytes(w.left) + spec_u32_to_le_bytes(w.top) + spec_u32_to_le_bytes(w.width)
        + spec_u32_to_le_bytes(w.height) + zero_bytes(4) + spec_u32_to_le_bytes(w.chromakey)
}

/// The payload bytes of a format descriptor, before zero padding.
pub open spec fn spec_format_payload(f: Format) -> Seq<u8> {
    match f {
        Format::VideoCapture(p) => spec_encode_pix(p),
        Format::VideoOutput(p) => spec_encode_pix(p),
        Format::VideoOverlay(w) => spec_encode_overlay(w),
        Format::VideoCaptureMplane(p) => spec_encode_mplane(p),
        Format::VideoOutputMplane(p) => spec_encode_mplane(p),
        Format::MetaCapture(m) => spec_encode_meta(m),
        Format::MetaOutput(m) => spec_encode_meta(m),
    }
}

/// The full wire image of a format descriptor.
pub open spec fn spec_encode_format(f: Format) -> Seq<u8> {
    spec_u32_to_le_bytes(f.buf_type().code()) + zero_bytes(4) + spec_format_payload(f)
        + zero_bytes((FORMAT_PAYLOAD_SIZE - spec_format_payload(f).len()) as nat)
}

/// Appends the little-endian bytes of a 32-bit field.
fn push_u32(out: &mut Vec<u8>, x: u32)
    ensures
        final(out)@ == old(out)@ + spec_u32_to_le_bytes(x),
{
    let mut b = u32_to_le_bytes(x);
    out.append(&mut b);
}

/// Appends the little-endian bytes of a 64-bit field.
fn push_u64(out: &mut Vec<u8>, x: u64)
    ensures
        final(out)@ == old(out)@ + spec_u64_to_le_bytes(x),
{
    let mut b = u64_to_le_bytes(x);
    out.append(&mut b);
}

/// Appends `n` zero bytes.
fn push_zeros(out: &mut Vec<u8>, n: usize)
    ensures
        final(out)@ == old(out)@ + zero_bytes(n as nat),
{
    let mut i: usize = 0;
    while i < n
        invariant
            0 <= i <= n,
            out@ == old(out)@ + zero_bytes(i as nat),
        decreases n - i,
    {
        out.push(0);
        proof {
            assert(out@ =~= old(out)@ + zero_bytes((i + 1) as nat));
        }
        i = i + 1;
    }
}

/// Appends one plane slot of a multi-planar payload.
fn push_plane(out: &mut Vec<u8>, p: &PlaneFormat)
    ensures
        final(out)@ == old(out)@ + spec_encode_plane(*p),
{
    push_u32(out, p.sizeimage);
    push_u32(out, p.bytesperline);
    push_zeros(out, 12);
    proof {
        assert(out@ =~= old(out)@ + spec_encode_plane(*p));
    }
}

/// Reads the 32-bit little-endian field at byte offset `off`.
pub fn read_u32_at(bytes: &[u8], off: usize) -> (r: u32)
    requires
        off + 4 <= bytes@.len(),
    ensures
        r == spec_u32_from_le_bytes(bytes@.subrange(off as int, off + 4)),
{
    let n = bytes.len();
    u32_from_le_bytes(vstd::slice::slice_subrange(bytes, off, off + 4))
}

/// Reads the 64-bit little-endian field at byte offset `off`.
pub fn read_u64_at(bytes: &[u8], off: usize) -> (r: u64)
    requires
        off + 8 <= bytes@.len(),
    ensures
        r == spec_u64_from_le_bytes(bytes@.subrange(off as int, off + 8)),
{
    let n = bytes.len();
    u64_from_le_bytes(vstd::slice::slice_subrange(bytes, off, off + 8))
}

/// Encodes a format descriptor into its exact wire image.
///
/// Encoding is total: every descriptor has a wire image, and the buffer-type
/// tag written is always the one of the descriptor's own variant.
#[verifier::rlimit(80)]
pub fn encode_format(f: &Format) -> (r: Vec<u8>)
    ensures
        r@ == spec_encode_format(*f),
        r@.len() == FORMAT_SIZE,
{
    let mut out: Vec<u8> = Vec::new();
    push_u32(&mut out, f.buf_type().code());
    push_zeros(&mut out, 4);
    match f {
        Format::VideoCapture(p) | Format::VideoOutput(p) => {
            push_u32(&mut out, p.width);
            push_u32(&mut out, p.height);
            push_u32(&mut out, p.pixelformat.code);
            push_zeros(&mut out, 4);
            push_u32(&mut out, p.bytesperline);
            push_u32(&mut out, p.sizeimage);
            push_u32(&mut out, p.colorspace);
        },
        Format::VideoOverlay(w) => {
            push_u32(&mut out, w.left);
            push_u32(&mut out, w.top);
            push_u32(&mut out, w.width);
            push_u32(&mut out, w.height);
            push_zeros(&mut out, 4);
            push_u32(&mut out, w.chromakey);
        },
        Format::VideoCaptureMplane(p) | Format::VideoOutputMplane(p) => {
            push_u32(&mut out, p.width);
            push_u32(&mut out, p.height);
            push_u32(&mut out, p.pixelformat.code);
            push_zeros(&mut out, 4);
            push_u32(&mut out, p.colorspace);
            push_plane(&mut out, &p.planes.plane0);
            push_plane(&mut out, &p.planes.plane1);
            push_plane(&mut out, &p.planes.plane2);
            push_plane(&mut out, &p.planes.plane3);
            push_plane(&mut out, &p.planes.plane4);
            push_plane(&mut out, &p.planes.plane5);
            push_plane(&mut out, &p.planes.plane6);
            push_plane(&mut out, &p.planes.plane7);
            out.push(#[verifier::truncate] (p.planes.count as u8));
        },
        Format::MetaCapture(m) | Format::MetaOutput(m) => {
            push_u32(&mut out, m.dataformat.code);
            push_u32(&mut out, m.buffersize);
        },
    }
    proof {
        lemma_auto_spec_u32_to_from_le_bytes();
    }
    let pad = FORMAT_SIZE - out.len();
    push_zeros(&mut out, pad);
    proof {
        assert(out@ =~= spec_encode_format(*f));
    }
    out
}

/// The wire image of a get-format request: the buffer-type tag followed by
/// zeros, for the driver to fill in.
pub open spec fn spec_format_probe(bt: BufType) -> Seq<u8> {
    spec_u32_to_le_bytes(bt.code()) + zero_bytes((FORMAT_SIZE - 4) as nat)
}

/// Encodes the get-format request for a buffer type: the tag, and zeros for
/// the driver to fill in.
pub fn encode_format_probe(bt: BufType) -> (r: Vec<u8>)
    ensures
        r@ == spec_format_probe(bt),
        r@.len() == FORMAT_SIZE,
{
    let mut out: Vec<u8> = Vec::new();
    push_u32(&mut out, bt.code());
    push_zeros(&mut out, FORMAT_SIZE - 4);
    proof {
        vstd::bytes::lemma_auto_spec_u32_to_from_le_bytes();
        assert(out@ =~= spec_format_probe(bt));
    }
    out
}

/// The 32-bit little-endian field of `bytes` at byte offset `off`.
pub open spec fn spec_u32_at(bytes: Seq<u8>, off: int) -> u32 {
    spec_u32_from_le_bytes(bytes.subrange(off, off + 4))
}

/// The 64-bit little-endian field of `bytes` at byte offset `off`.
pub open spec fn spec_u64_at(bytes: Seq<u8>, off: int) -> u64 {
    spec_u64_from_le_bytes(bytes.subrange(off, off + 8))
}

/// The single-planar pixel format spelled by a format descriptor's payload.
pub open spec fn spec_decode_pix(bytes: Seq<u8>) -> PixFormat {
    PixFormat {
        width: spec_u32_at(bytes, 8),
        height: spec_u32_at(bytes, 12),
        pixelformat: Pixelformat { code: spec_u32_at(bytes, 16) },
        bytesperline: spec_u32_at(bytes, 24),
        sizeimage: spec_u32_at(bytes, 28),
        colorspace: spec_u32_at(bytes, 32),
    }
}

/// The overlay window spelled by a format descriptor's payload.
pub open spec fn spec_decode_overlay(bytes: Seq<u8>) -> OverlayFormat {
    OverlayFormat {
        left: spec_u32_at(bytes, 8),
        top: spec_u32_at(bytes, 12),
        width: spec_u32_at(bytes, 16),
        height: spec_u32_at(bytes, 20),
        chromakey: spec_u32_at(bytes, 28),
    }
}

/// The plane slot spelled at byte offset `off` of a format descriptor.
pub open spec fn spec_decode_plane(bytes: Seq<u8>, off: int) -> PlaneFormat {
    PlaneFormat { sizeimage: spec_u32_at(bytes, off), bytesperline: spec_u32_at(bytes, off + 4) }
}

/// The multi-planar pixel format spelled by a format descriptor's payload.
pub open spec fn spec_decode_mplane(bytes: Seq<u8>) -> PixFormatMplane {
    PixFormatMplane {
        width: spec_u32_at(bytes, 8),
        height: spec_u32_at(bytes, 12),
        pixelformat: Pixelformat { code: spec_u32_at(bytes, 16) },
        colorspace: spec_u32_at(bytes, 24),
        planes: PlaneBank {
            count: spec_plane_count(bytes) as u32,
            plane0: spec_decode_plane(bytes, 28),
            plane1: spec_decode_plane(bytes, 48),
            plane2: spec_decode_plane(bytes, 68),
            plane3: spec_decode_plane(bytes, 88),
            plane4: spec_decode_plane(bytes, 108),
            plane5: spec_decode_plane(bytes, 128),
            plane6: spec_decode_plane(bytes, 148),
            plane7: spec_decode_plane(bytes, 168),
        },
    }
}

/// The one-byte plane count of a multi-planar format descriptor, which sits
/// after the eight plane slots.
pub open spec fn spec_plane_count(bytes: Seq<u8>) -> u8 {
    bytes[188]
}

/// The metadata format spelled by a format descriptor's payload.
pub open spec fn spec_decode_meta(bytes: Seq<u8>) -> MetaFormat {
    MetaFormat {
        dataformat: Pixelformat { code: spec_u32_at(bytes, 8) },
        buffersize: spec_u32_at(bytes, 12),
    }
}

/// What decoding a format descriptor returns, for every byte sequence and
/// every expected buffer type.
pub open spec fn spec_decode_format(bytes: Seq<u8>, expected: BufType) -> Result<
    Format,
    StreamError,
> {
    if bytes.len() != FORMAT_SIZE {
        Err(StreamError::MalformedResponse)
    } else {
        match BufType::spec_from_code(spec_u32_at(bytes, 0)) {
            None => Err(StreamError::MalformedResponse),
            Some(bt) => if bt != expected {
                Err(StreamError::MalformedResponse)
            } else {
                match bt {
                    BufType::VideoCapture => Ok(Format::VideoCapture(spec_decode_pix(bytes))),
                    BufType::VideoOutput => Ok(Format::VideoOutput(spec_decode_pix(bytes))),
                    BufType::VideoOverlay => Ok(Format::VideoOverlay(spec_decode_overlay(bytes))),
                    BufType::VideoCaptureMplane => if spec_plane_count(bytes) > MAX_PLANES {
                        Err(StreamError::MalformedResponse)
                    } else {
                        Ok(Format::VideoCaptureMplane(spec_decode_mplane(bytes)))
                    },
                    BufType::VideoOutputMplane => if spec_plane_count(bytes) > MAX_PLANES {
                        Err(StreamError::MalformedResponse)
                    } else {
                        Ok(Format::VideoOutputMplane(spec_decode_mplane(bytes)))
                    },
                    BufType::MetaCapture => Ok(Format::MetaCapture(spec_decode_meta(bytes))),
                    BufType::MetaOutput => Ok(Format::MetaOutput(spec_decode_meta(bytes))),
                }
            },
        }
    }
}

/// Reads the plane slot at byte offset `off` of a format descriptor.
fn read_plane_at(bytes: &[u8], off: usize) -> (r: PlaneFormat)
    requires
        off + 8 <= bytes@.len(),
    ensures
        r == spec_decode_plane(bytes@, off as int),
{
    let n = bytes.len();
    PlaneFormat { sizeimage: read_u32_at(bytes, off), bytesperline: read_u32_at(bytes, off + 4) }
}

/// Decodes the multi-planar payload of a format descriptor, validating the
/// plane count against the fixed plane capacity.
fn decode_mplane_payload(bytes: &[u8]) -> (r: Result<PixFormatMplane, StreamError>)
    requires
        bytes@.len() == FORMAT_SIZE,
    ensures
        spec_plane_count(bytes@) > MAX_PLANES ==> r == Err::<PixFormatMplane, StreamError>(
            StreamError::MalformedResponse,
        ),
        spec_plane_count(bytes@) <= MAX_PLANES ==> r == Ok::<PixFormatMplane, StreamError>(
            spec_decode_mplane(bytes@),
        ),
{
    let count = *vstd::slice::slice_index_get(bytes, 188) as u32;
    if count > MAX_PLANES {
        return Err(StreamError::MalformedResponse);
    }
    Ok(
        PixFormatMplane {
            width: read_u32_at(bytes, 8),
            height: read_u32_at(bytes, 12),
            pixelformat: Pixelformat { code: read_u32_at(bytes, 16) },
            colorspace: read_u32_at(bytes, 24),
            planes: PlaneBank {
                count,
                plane0: read_plane_at(bytes, 28),
                plane1: read_plane_at(bytes, 48),
                plane2: read_plane_at(bytes, 68),
                plane3: read_plane_at(bytes, 88),
                plane4: read_plane_at(bytes, 108),
                plane5: read_plane_at(bytes, 128),
                plane6: read_plane_at(bytes, 148),
                plane7: read_plane_at(bytes, 168),
            },
        },
    )
}

/// Decodes a driver-returned format descriptor.
///
/// The buffer-type discriminant is validated on every decode: a code outside
/// the known set, or one that does not match the buffer type the request was
/// made for, is rejected as `MalformedResponse` and never guessed at, as is a
/// record of the wrong size or a plane count beyond the fixed capacity.
pub fn decode_format(bytes: &[u8], expected: BufType) -> (r: Result<Format, StreamError>)
    ensures
        r == spec_decode_format(bytes@, expected),
{
    let n = bytes.len();
    if n != FORMAT_SIZE {
        return Err(StreamError::MalformedResponse);
    }
    let tag = read_u32_at(bytes, 0);
    match BufType::from_code(tag) {
        None => Err(StreamError::MalformedResponse),
        Some(bt) => {
            if bt.code() != expected.code() {
                return Err(StreamError::MalformedResponse);
            }
            match bt {
                BufType::VideoCapture => Ok(
                    Format::VideoCapture(
                        PixFormat {
                            width: read_u32_at(bytes, 8),
                            height: read_u32_at(bytes, 12),
                            pixelformat: Pixelformat { code: read_u32_at(bytes, 16) },
                            bytesperline: read_u32_at(bytes, 24),
                            sizeimage: read_u32_at(bytes, 28),
                            colorspace: read_u32_at(bytes, 32),
                        },
                    ),
                ),
                BufType::VideoOutput => Ok(
                    Format::VideoOutput(
                        PixFormat {
                            width: read_u32_at(bytes, 8),
                            height: read_u32_at(bytes, 12),
                            pixelformat: Pixelformat { code: read_u32_at(bytes, 16) },
                            bytesperline: read_u32_at(bytes, 24),
                            sizeimage: read_u32_at(bytes, 28),
                            colorspace: read_u32_at(bytes, 32),
                        },
                    ),
                ),
                BufType::VideoOverlay => Ok(
                    Format::VideoOverlay(
                        OverlayFormat {
                            left: read_u32_at(bytes, 8),
                            top: read_u32_at(bytes, 12),
                            width: read_u32_at(bytes, 16),
                            height: read_u32_at(bytes, 20),
                            chromakey: read_u32_at(bytes, 28),
                        },
                    ),
                ),
                BufType::VideoCaptureMplane => {
                    let p = decode_mplane_payload(bytes)?;
                    Ok(Format::VideoCaptureMplane(p))
                },
                BufType::VideoOutputMplane => {
                    let p = decode_mplane_payload(bytes)?;
                    Ok(Format::VideoOutputMplane(p))
                },
                BufType::MetaCapture => Ok(
                    Format::MetaCapture(
                        MetaFormat {
                            dataformat: Pixelformat { code: read_u32_at(bytes, 8) },
                            buffersize: read_u32_at(bytes, 12),
                        },
                    ),
                ),
                BufType::MetaOutput => Ok(
                    Format::MetaOutput(
                        MetaFormat {
                            dataformat: Pixelformat { code: read_u32_at(bytes, 8) },
                            buffersize: read_u32_at(bytes, 12),
                        },
                    ),
                ),
            }
        },
    }
}

/// Encoding a format descriptor and decoding the wire image under the same
/// buffer type yields the descriptor unchanged; in particular the tag read
/// back always matches the tag requested.
pub proof fn lemma_format_round_trip(f: Format)
    requires
        f.wf(),
    ensures
        spec_decode_format(spec_encode_format(f), f.buf_type()) == Ok::<Format, StreamError>(f),
{
    lemma_auto_spec_u32_to_from_le_bytes();
    let enc = spec_encode_format(f);
    assert(enc.subrange(0, 4) =~= spec_u32_to_le_bytes(f.buf_type().code()));
    match f {
        Format::VideoCapture(p) | Format::VideoOutput(p) => {
            assert(enc.subrange(8, 12) =~= spec_u32_to_le_bytes(p.width));
            assert(enc.subrange(12, 16) =~= spec_u32_to_le_bytes(p.height));
            assert(enc.subrange(16, 20) =~= spec_u32_to_le_bytes(p.pixelformat.code));
            assert(enc.subrange(24, 28) =~= spec_u32_to_le_bytes(p.bytesperline));
            assert(enc.subrange(28, 32) =~= spec_u32_to_le_bytes(p.sizeimage));
            assert(enc.subrange(32, 36) =~= spec_u32_to_le_bytes(p.colorspace));
            assert(spec_decode_pix(enc) == p);
        },
        Format::VideoOverlay(w) => {
            assert(enc.subrange(8, 12) =~= spec_u32_to_le_bytes(w.left));
            assert(enc.subrange(12, 16) =~= spec_u32_to_le_bytes(w.top));
            assert(enc.subrange(16, 20) =~= spec_u32_to_le_bytes(w.width));
            assert(enc.subrange(20, 24) =~= spec_u32_to_le_bytes(w.height));
            assert(enc.subrange(28, 32) =~= spec_u32_to_le_bytes(w.chromakey));
            assert(spec_decode_overlay(enc) == w);
        },
        Format::VideoCaptureMplane(p) | Format::VideoOutputMplane(p) => {
            assert(enc.subrange(8, 12) =~= spec_u32_to_le_bytes(p.width));
            assert(enc.subrange(12, 16) =~= spec_u32_to_le_bytes(p.height));
            assert(enc.subrange(16, 20) =~= spec_u32_to_le_bytes(p.pixelformat.code));
            assert(enc.subrange(24, 28) =~= spec_u32_to_le_bytes(p.colorspace));
            assert(enc.subrange(28, 32) =~= spec_u32_to_le_bytes(p.planes.plane0.sizeimage));
            assert(enc.subrange(32, 36) =~= spec_u32_to_le_bytes(p.planes.plane0.bytesperline));
            assert(enc.subrange(48, 52) =~= spec_u32_to_le_bytes(p.planes.plane1.sizeimage));
            assert(enc.subrange(52, 56) =~= spec_u32_to_le_bytes(p.planes.plane1.bytesperline));
            assert(enc.subrange(68, 72) =~= spec_u32_to_le_bytes(p.planes.plane2.sizeimage));
            assert(enc.subrange(72, 76) =~= spec_u32_to_le_bytes(p.planes.plane2.bytesperline));
            assert(enc.subrange(88, 92) =~= spec_u32_to_le_bytes(p.planes.plane3.sizeimage));
            assert(enc.subrange(92, 96) =~= spec_u32_to_le_bytes(p.planes.plane3.bytesperline));
            assert(enc.subrange(108, 112) =~= spec_u32_to_le_bytes(p.planes.plane4.sizeimage));
            assert(enc.subrange(112, 116) =~= spec_u32_to_le_bytes(p.planes.plane4.bytesperline));
            assert(enc.subrange(128, 132) =~= spec_u32_to_le_bytes(p.planes.plane5.sizeimage));
            assert(enc.subrange(132, 136) =~= spec_u32_to_le_bytes(p.planes.plane5.bytesperline));
            assert(enc.subrange(148, 152) =~= spec_u32_to_le_bytes(p.planes.plane6.sizeimage));
            assert(enc.subrange(152, 156) =~= spec_u32_to_le_bytes(p.planes.plane6.bytesperline));
            assert(enc.subrange(168, 172) =~= spec_u32_to_le_bytes(p.planes.plane7.sizeimage));
            assert(enc.subrange(172, 176) =~= spec_u32_to_le_bytes(p.planes.plane7.bytesperline));
            assert(enc[188] == p.planes.count as u8);
            assert(spec_decode_mplane(enc) == p);
        },
        Format::MetaCapture(m) | Format::MetaOutput(m) => {
            assert(enc.subrange(8, 12) =~= spec_u32_to_le_bytes(m.dataformat.code));
            assert(enc.subrange(12, 16) =~= spec_u32_to_le_bytes(m.buffersize));
            assert(spec_decode_meta(enc) == m);
        },
    }
}

/// Buffer flag: the buffer is memory-mapped.
pub const BUF_FLAG_MAPPED: u32 = 0x1;

/// Buffer flag: the driver has filled the buffer and handed it back.
pub const BUF_FLAG_DONE: u32 = 0x4;

/// Buffer flag: the buffer holds a key frame.
pub const BUF_FLAG_KEYFRAME: u32 = 0x8;

/// Buffer flag: the driver signalled an error while filling the buffer.
pub const BUF_FLAG_ERROR: u32 = 0x40;

/// A buffer descriptor: one control-request payload of the buffer exchange
/// protocol, naming a slot and carrying what the driver reported about it.
#[derive(Clone, Copy, PartialEq, Eq, Structural, Debug)]
pub struct BufferDesc {
    /// Which logical stream the buffer belongs to.
    pub buf_type: BufType,
    /// How the buffer's memory is exchanged.
    pub memory: Memory,
    /// The slot's ordinal position in its pool.
    pub index: u32,
    /// Buffer flags reported by the driver.
    pub flags: u32,
    /// How many bytes of the region hold payload data.
    pub bytesused: u32,
    /// The region's length in bytes.
    pub length: u32,
    /// The region's byte offset, used to map it. The wire field is 32 bits
    /// wide, so a descriptor can only be encoded when this fits.
    pub offset: u64,
    /// Seconds part of the completion timestamp.
    pub timestamp_sec: u64,
    /// Microseconds part of the completion timestamp.
    pub timestamp_usec: u64,
}

/// The full wire image of a buffer descriptor: index, buffer type, bytes
/// used and flags; eight zero bytes (the unmodelled interlacing member and
/// timeval alignment); the two timestamp words; twenty zero bytes (the
/// unmodelled timecode and sequence members); memory mode; the mapping
/// offset; four zero bytes (the rest of the memory union); the region
/// length; and twelve trailing zero bytes.
pub open spec fn spec_encode_buffer(b: BufferDesc) -> Seq<u8> {
    spec_u32_to_le_bytes(b.index) + spec_u32_to_le_bytes(b.buf_type.code()) + spec_u32_to_le_bytes(
        b.bytesused,
    ) + spec_u32_to_le_bytes(b.flags) + zero_bytes(8) + spec_u64_to_le_bytes(b.timestamp_sec)
        + spec_u64_to_le_bytes(b.timestamp_usec) + zero_bytes(20) + spec_u32_to_le_bytes(
        b.memory.code(),
    ) + spec_u32_to_le_bytes(b.offset as u32) + zero_bytes(4) + spec_u32_to_le_bytes(b.length)
        + zero_bytes(12)
}

/// What decoding a buffer descriptor returns, for every byte sequence and
/// every expected buffer type.
pub open spec fn spec_decode_buffer(bytes: Seq<u8>, expected: BufType) -> Result<
    BufferDesc,
    StreamError,
> {
    if bytes.len() != BUFFER_DESC_SIZE {
        Err(StreamError::MalformedResponse)
    } else {
        match (BufType::spec_from_code(spec_u32_at(bytes, 4)), Memory::spec_from_code(
            spec_u32_at(bytes, 60),
        )) {
            (Some(bt), Some(mem)) => if bt != expected {
                Err(StreamError::MalformedResponse)
            } else {
                Ok(
                    BufferDesc {
                        buf_type: bt,
                        memory: mem,
                        index: spec_u32_at(bytes, 0),
                        flags: spec_u32_at(bytes, 12),
                        bytesused: spec_u32_at(bytes, 8),
                        length: spec_u32_at(bytes, 72),
                        offset: spec_u32_at(bytes, 64) as u64,
                        timestamp_sec: spec_u64_at(bytes, 24),
                        timestamp_usec: spec_u64_at(bytes, 32),
                    },
                )
            },
            _ => Err(StreamError::MalformedResponse),
        }
    }
}

/// Encodes a buffer descriptor into its exact wire image. The wire carries
/// the mapping offset as a 32-bit word, so the descriptor's offset must fit
/// in it.
pub fn encode_buffer(b: &BufferDesc) -> (r: Vec<u8>)
    requires
        b.offset <= u32::MAX,
    ensures
        r@ == spec_encode_buffer(*b),
        r@.len() == BUFFER_DESC_SIZE,
{
    let mut out: Vec<u8> = Vec::new();
    push_u32(&mut out, b.index);
    push_u32(&mut out, b.buf_type.code());
    push_u32(&mut out, b.bytesused);
    push_u32(&mut out, b.flags);
    push_zeros(&mut out, 8);
    push_u64(&mut out, b.timestamp_sec);
    push_u64(&mut out, b.timestamp_usec);
    push_zeros(&mut out, 20);
    push_u32(&mut out, b.memory.code());
    push_u32(&mut out, b.offset as u32);
    push_zeros(&mut out, 4);
    push_u32(&mut out, b.length);
    push_zeros(&mut out, 12);
    proof {
        lemma_auto_spec_u32_to_from_le_bytes();
        lemma_auto_spec_u64_to_from_le_bytes();
        assert(out@ =~= spec_encode_buffer(*b));
    }
    out
}

/// Decodes a driver-returned buffer descriptor, validating the buffer-type
/// and memory-mode discriminants and the record size.
pub fn decode_buffer(bytes: &[u8], expected: BufType) -> (r: Result<BufferDesc, StreamError>)
    ensures
        r == spec_decode_buffer(bytes@, expected),
{
    let n = bytes.len();
    if n != BUFFER_DESC_SIZE {
        return Err(StreamError::MalformedResponse);
    }
    let bt = match BufType::from_code(read_u32_at(bytes, 4)) {
        Some(bt) => bt,
        None => {
            return Err(StreamError::MalformedResponse);
        },
    };
    let mem = match Memory::from_code(read_u32_at(bytes, 60)) {
        Some(mem) => mem,
        None => {
            return Err(StreamError::MalformedResponse);
        },
    };
    if bt.code() != expected.code() {
        return Err(StreamError::MalformedResponse);
    }
    Ok(
        BufferDesc {
            buf_type: bt,
            memory: mem,
            index: read_u32_at(bytes, 0),
            flags: read_u32_at(bytes, 12),
            bytesused: read_u32_at(bytes, 8),
            length: read_u32_at(bytes, 72),
            offset: read_u32_at(bytes, 64) as u64,
            timestamp_sec: read_u64_at(bytes, 24),
            timestamp_usec: read_u64_at(bytes, 32),
        },
    )
}

/// Encoding a buffer descriptor and decoding the wire image under the same
/// buffer type yields the descriptor unchanged.
pub proof fn lemma_buffer_round_trip(b: BufferDesc)
    requires
        b.offset <= u32::MAX,
    ensures
        spec_decode_buffer(spec_encode_buffer(b), b.buf_type) == Ok::<BufferDesc, StreamError>(b),
{
    lemma_auto_spec_u32_to_from_le_bytes();
    lemma_auto_spec_u64_to_from_le_bytes();
    let enc = spec_encode_buffer(b);
    assert(enc.subrange(0, 4) =~= spec_u32_to_le_bytes(b.index));
    assert(enc.subrange(4, 8) =~= spec_u32_to_le_bytes(b.buf_type.code()));
    assert(enc.subrange(8, 12) =~= spec_u32_to_le_bytes(b.bytesused));
    assert(enc.subrange(12, 16) =~= spec_u32_to_le_bytes(b.flags));
    assert(enc.subrange(24, 32) =~= spec_u64_to_le_bytes(b.timestamp_sec));
    assert(enc.subrange(32, 40) =~= spec_u64_to_le_bytes(b.timestamp_usec));
    assert(enc.subrange(60, 64) =~= spec_u32_to_le_bytes(b.memory.code()));
    assert(enc.subrange(64, 68) =~= spec_u32_to_le_bytes(b.offset as u32));
    assert(enc.subrange(72, 76) =~= spec_u32_to_le_bytes(b.length));
    assert(spec_decode_buffer(enc, b.buf_type) == Ok::<BufferDesc, StreamError>(b));
}

/// A time fraction: `numerator / denominator` seconds per frame.
#[derive(Clone, Copy, PartialEq, Eq, Structural, Debug)]
pub struct Fract {
    /// Seconds-per-frame numerator.
    pub numerator: u32,
    /// Seconds-per-frame denominator.
    pub denominator: u32,
}

/// The full wire image of a streaming-parameter record carrying a frame
/// interval: the buffer-type tag, the time-per-frame capability word, the
/// (zero) capture-mode word, the interval fraction, and zeros for the
/// extended-mode and read-buffers words and the rest of the union area.
pub open spec fn spec_encode_stream_parm(bt: BufType, interval: Fract) -> Seq<u8> {
    spec_u32_to_le_bytes(bt.code()) + spec_u32_to_le_bytes(PARM_CAP_TIMEPERFRAME) + zero_bytes(4)
        + spec_u32_to_le_bytes(interval.numerator) + spec_u32_to_le_bytes(interval.denominator)
        + zero_bytes((STREAM_PARM_SIZE - 20) as nat)
}

/// What decoding a streaming-parameter record returns.
pub open spec fn spec_decode_stream_parm(bytes: Seq<u8>, expected: BufType) -> Result<
    Fract,
    StreamError,
> {
    if bytes.len() != STREAM_PARM_SIZE {
        Err(StreamError::MalformedResponse)
    } else if spec_u32_at(bytes, 0) != expected.code() {
        Err(StreamError::MalformedResponse)
    } else {
        Ok(Fract { numerator: spec_u32_at(bytes, 12), denominator: spec_u32_at(bytes, 16) })
    }
}

/// Encodes a frame-interval request into its exact wire image.
pub fn encode_stream_parm(bt: BufType, interval: &Fract) -> (r: Vec<u8>)
    ensures
        r@ == spec_encode_stream_parm(bt, *interval),
        r@.len() == STREAM_PARM_SIZE,
{
    let mut out: Vec<u8> = Vec::new();
    push_u32(&mut out, bt.code());
    push_u32(&mut out, PARM_CAP_TIMEPERFRAME);
    push_zeros(&mut out, 4);
    push_u32(&mut out, interval.numerator);
    push_u32(&mut out, interval.denominator);
    push_zeros(&mut out, STREAM_PARM_SIZE - 20);
    proof {
        lemma_auto_spec_u32_to_from_le_bytes();
        assert(out@ =~= spec_encode_stream_parm(bt, *interval));
    }
    out
}

/// Decodes the frame interval the driver chose, validating the buffer-type
/// tag and the record size.
pub fn decode_stream_parm(bytes: &[u8], expected: BufType) -> (r: Result<Fract, StreamError>)
    ensures
        r == spec_decode_stream_parm(bytes@, expected),
{
    let n = bytes.len();
    if n != STREAM_PARM_SIZE {
        return Err(StreamError::MalformedResponse);
    }
    if read_u32_at(bytes, 0) != expected.code() {
        return Err(StreamError::MalformedResponse);
    }
    Ok(Fract { numerator: read_u32_at(bytes, 12), denominator: read_u32_at(bytes, 16) })
}

/// Encoding a frame-interval request and decoding the wire image under the
/// same buffer type yields the interval unchanged.
pub proof fn lemma_stream_parm_round_trip(bt: BufType, interval: Fract)
    ensures
        spec_decode_stream_parm(spec_encode_stream_parm(bt, interval), bt) == Ok::<
            Fract,
            StreamError,
        >(interval),
{
    lemma_auto_spec_u32_to_from_le_bytes();
    let enc = spec_encode_stream_parm(bt, interval);
    assert(enc.subrange(0, 4) =~= spec_u32_to_le_bytes(bt.code()));
    assert(enc.subrange(12, 16) =~= spec_u32_to_le_bytes(interval.numerator));
    assert(enc.subrange(16, 20) =~= spec_u32_to_le_bytes(interval.denominator));
}

} // verus!
