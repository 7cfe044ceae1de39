//! Four character code (fourcc) identifying a pixel or metadata format.

use vstd::prelude::*;

use vstd::bytes::{
    lemma_auto_spec_u32_to_from_le_bytes, spec_u32_from_le_bytes, spec_u32_to_le_bytes,
    u32_from_le_bytes, u32_to_le_bytes,
};
use vstd::utf8::{encode_scalar, encode_utf8};

use crate::bytestr::{byte_chars, bytes_to_string};

verus! {

/// Four character code (fourcc) identifying a pixel format.
///
/// A fourcc packs four ASCII bytes into a 32-bit word, least significant
/// byte first.
#[derive(Clone, Copy, PartialEq, Eq, Structural, Debug)]
pub struct Pixelformat {
    /// The packed code.
    pub code: u32,
}

impl Pixelformat {
    /// Packs the four characters of a fourcc into its numeric code.
    pub fn from_fourcc(fourcc: &[u8; 4]) -> (r: Pixelformat)
        ensures
            r.code == spec_u32_from_le_bytes(fourcc@),
    {
        Pixelformat { code: u32_from_le_bytes(fourcc.as_slice()) }
    }

    /// The four bytes of the fourcc, in the order they were given.
    pub fn bytes(&self) -> (r: Vec<u8>)
        ensures
            r@ == spec_u32_to_le_bytes(self.code),
    {
        u32_to_le_bytes(self.code)
    }

    /// Spells the fourcc out as the four characters it packs, one character
    /// per byte whatever the bytes' values.
    pub fn to_string(&self) -> (r: String)
        ensures
            r@ == byte_chars(spec_u32_to_le_bytes(self.code)),
    {
        let bytes = u32_to_le_bytes(self.code);
        let ghost chars = byte_chars(bytes@);
        let mut utf8: Vec<u8> = Vec::new();
        push_utf8_byte_char(&mut utf8, bytes[0]);
        push_utf8_byte_char(&mut utf8, bytes[1]);
        push_utf8_byte_char(&mut utf8, bytes[2]);
        push_utf8_byte_char(&mut utf8, bytes[3]);
        proof {
            let c1 = chars.drop_first();
            let c2 = c1.drop_first();
            let c3 = c2.drop_first();
            let c4 = c3.drop_first();
            assert(c4.len() == 0);
            assert(encode_utf8(c4) =~= Seq::<u8>::empty());
            assert(encode_utf8(c3) =~= encode_scalar(c3[0] as u32) + encode_utf8(c4));
            assert(encode_utf8(c2) =~= encode_scalar(c2[0] as u32) + encode_utf8(c3));
            assert(encode_utf8(c1) =~= encode_scalar(c1[0] as u32) + encode_utf8(c2));
            assert(encode_utf8(chars) =~= encode_scalar(chars[0] as u32) + encode_utf8(c1));
            assert(utf8@ =~= encode_utf8(chars));
            vstd::utf8::encode_utf8_valid_utf8(chars);
            vstd::utf8::encode_utf8_decode_utf8(chars);
        }
        match bytes_to_string(utf8.as_slice()) {
            Some(s) => s,
            None => {
                proof {
                    assert(false);
                }
                String::new()
            },
        }
    }
}

/// Appends the UTF-8 encoding of the character whose code point is `b`: the
/// byte itself below 0x80, and a two-byte encoding from there up.
fn push_utf8_byte_char(out: &mut Vec<u8>, b: u8)
    ensures
        final(out)@ == old(out)@ + encode_scalar((b as char) as u32),
{
    proof {
        assert((b as char) as u32 == b as u32);
    }
    if b < 0x80 {
        out.push(b);
        proof {
            assert(((b as u32) & 0x7F) as u8 == b) by (bit_vector)
                requires
                    b < 0x80,
            ;
            assert(out@ =~= old(out)@ + encode_scalar(b as u32));
        }
    } else {
        out.push(0xC0 | (b >> 6));
        out.push(0x80 | (b & 0x3F));
        proof {
            assert(0xC0u8 | ((((b as u32) >> 6) & 0x1F) as u8) == 0xC0u8 | (b >> 6))
                by (bit_vector);
            assert(0x80u8 | (((b as u32) & 0x3F) as u8) == 0x80u8 | (b & 0x3F)) by (bit_vector);
            assert(out@ =~= old(out)@ + encode_scalar(b as u32));
        }
    }
}

/// Shorthand for [`Pixelformat::from_fourcc`].
pub fn fmt(fourcc: &[u8; 4]) -> (r: Pixelformat)
    ensures
        r.code == spec_u32_from_le_bytes(fourcc@),
{
    Pixelformat::from_fourcc(fourcc)
}

/// Packing four characters and spelling them out again round-trips.
pub proof fn lemma_fourcc_round_trip(fourcc: Seq<u8>)
    requires
        fourcc.len() == 4,
    ensures
        spec_u32_to_le_bytes(spec_u32_from_le_bytes(fourcc)) == fourcc,
{
    lemma_auto_spec_u32_to_from_le_bytes();
}

} // verus!
