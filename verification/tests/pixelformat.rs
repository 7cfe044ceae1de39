use linuxvideo::pixelformat::fmt;
use linuxvideo::Pixelformat;

#[test]
fn simple() {
    assert_eq!(Pixelformat::from_fourcc(b"AB24").to_string(), "AB24");
}

#[test]
fn fourcc_code_is_little_endian() {
    let pf = Pixelformat::from_fourcc(b"YUYV");
    assert_eq!(
        pf.code,
        (b'Y' as u32) | (b'U' as u32) << 8 | (b'Y' as u32) << 16 | (b'V' as u32) << 24
    );
}

#[test]
fn fourcc_bytes_round_trip() {
    let pf = Pixelformat::from_fourcc(b"MJPG");
    assert_eq!(pf.bytes(), vec![b'M', b'J', b'P', b'G']);
    assert_eq!(pf.to_string(), "MJPG");
}

#[test]
fn to_string_spells_any_byte() {
    // Fourccs are ASCII in practice, but display is total: each byte is
    // spelled as the character with that code point.
    let pf = Pixelformat::from_fourcc(&[b'A', 0xC4, b'B', 0xFF]);
    assert_eq!(pf.to_string(), "A\u{c4}B\u{ff}");
}

#[test]
fn fmt_shorthand_matches_from_fourcc() {
    assert_eq!(fmt(b"RGB4"), Pixelformat::from_fourcc(b"RGB4"));
}
