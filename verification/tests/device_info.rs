use linuxvideo::bytestr::byte_array_to_str;
use linuxvideo::caps::{
    decode_capabilities, supported_buf_types, CAPABILITY_SIZE, CAP_DEVICE_CAPS, CAP_META_CAPTURE,
    CAP_VIDEO_CAPTURE, CAP_VIDEO_OUTPUT,
};
use linuxvideo::ports::{
    decode_input, decode_output, EnumReply, INPUT_RECORD_SIZE, INPUT_TYPE_CAMERA,
    OUTPUT_RECORD_SIZE,
};
use linuxvideo::{
    is_video_device_name, BufType, CapabilityFlags, InputIter, OutputIter, StreamError,
};

fn put_u32(bytes: &mut [u8], off: usize, x: u32) {
    bytes[off..off + 4].copy_from_slice(&x.to_le_bytes());
}

fn put_u64(bytes: &mut [u8], off: usize, x: u64) {
    bytes[off..off + 8].copy_from_slice(&x.to_le_bytes());
}

fn put_text(bytes: &mut [u8], off: usize, text: &str) {
    bytes[off..off + text.len()].copy_from_slice(text.as_bytes());
}

#[test]
fn byte_array_to_str_truncates_at_nul() {
    let bytes = *b"uvcvideo\0\0\0\0\0\0\0\0";
    assert_eq!(byte_array_to_str(&bytes), Ok(String::from("uvcvideo")));
}

#[test]
fn byte_array_to_str_requires_terminator() {
    let bytes = *b"uvcvideo";
    assert_eq!(byte_array_to_str(&bytes), Err(StreamError::MalformedResponse));
}

#[test]
fn capabilities_decode_and_getters() {
    let mut bytes = vec![0u8; CAPABILITY_SIZE];
    put_text(&mut bytes, 0, "uvcvideo");
    put_text(&mut bytes, 16, "HD Webcam");
    put_text(&mut bytes, 48, "usb-0000:0a:00.3-2.1");
    put_u32(&mut bytes, 80, 0x50c0a);
    put_u32(&mut bytes, 84, CAP_VIDEO_CAPTURE | CAP_DEVICE_CAPS);
    put_u32(&mut bytes, 88, CAP_VIDEO_CAPTURE);
    let caps = decode_capabilities(&bytes).unwrap();
    assert_eq!(caps.driver(), "uvcvideo");
    assert_eq!(caps.card(), "HD Webcam");
    assert_eq!(caps.bus_info(), "usb-0000:0a:00.3-2.1");
    assert_eq!(caps.all_capabilities().bits, CAP_VIDEO_CAPTURE | CAP_DEVICE_CAPS);
    // DEVICE_CAPS raised: the per-handle set is authoritative.
    assert_eq!(caps.device_capabilities().bits, CAP_VIDEO_CAPTURE);
}

#[test]
fn capabilities_without_device_caps_flag() {
    let mut bytes = vec![0u8; CAPABILITY_SIZE];
    put_text(&mut bytes, 0, "vivid");
    put_u32(&mut bytes, 84, CAP_VIDEO_CAPTURE);
    put_u32(&mut bytes, 88, 0xdeadbeef);
    let caps = decode_capabilities(&bytes).unwrap();
    assert_eq!(caps.device_capabilities().bits, CAP_VIDEO_CAPTURE);
}

#[test]
fn capabilities_decode_rejects_missing_terminator() {
    let mut bytes = vec![0u8; CAPABILITY_SIZE];
    for b in bytes[0..16].iter_mut() {
        *b = b'x';
    }
    assert!(matches!(
        decode_capabilities(&bytes),
        Err(StreamError::MalformedResponse)
    ));
    assert!(matches!(
        decode_capabilities(&[0u8; 10]),
        Err(StreamError::MalformedResponse)
    ));
}

fn sample_input_record() -> Vec<u8> {
    let mut bytes = vec![0u8; INPUT_RECORD_SIZE];
    put_u32(&mut bytes, 0, 0);
    put_text(&mut bytes, 4, "Camera 1");
    put_u32(&mut bytes, 36, INPUT_TYPE_CAMERA);
    put_u32(&mut bytes, 40, 0b11);
    put_u32(&mut bytes, 44, 0);
    put_u64(&mut bytes, 48, 0xff);
    put_u32(&mut bytes, 56, 0);
    put_u32(&mut bytes, 60, 0x4);
    bytes
}

#[test]
fn input_decode_and_getters() {
    let inp = decode_input(&sample_input_record()).unwrap();
    assert_eq!(inp.name(), "Camera 1");
    assert_eq!(inp.input_type().code, INPUT_TYPE_CAMERA);
    assert_eq!(inp.audioset(), 0b11);
    assert_eq!(inp.tuner(), 0);
    assert_eq!(inp.analog_std().bits, 0xff);
    assert_eq!(inp.status().bits, 0);
    assert_eq!(inp.capabilities().bits, 0x4);
}

#[test]
fn output_decode_and_getters() {
    let mut bytes = vec![0u8; OUTPUT_RECORD_SIZE];
    put_u32(&mut bytes, 0, 1);
    put_text(&mut bytes, 4, "loopback in");
    put_u32(&mut bytes, 36, 2);
    put_u32(&mut bytes, 40, 0);
    put_u32(&mut bytes, 44, 3);
    put_u64(&mut bytes, 48, 0);
    put_u32(&mut bytes, 56, 0x2);
    let out = decode_output(&bytes).unwrap();
    assert_eq!(out.name(), "loopback in");
    assert_eq!(out.output_type().code, 2);
    assert_eq!(out.audioset(), 0);
    assert_eq!(out.modulator(), 3);
    assert_eq!(out.analog_std().bits, 0);
    assert_eq!(out.capabilities().bits, 0x2);
}

#[test]
fn input_enumeration_walks_until_invalid_index() {
    let mut iter = InputIter::new();
    assert_eq!(iter.pending_index(), Some(0));
    let first = iter.next(&EnumReply::Record(sample_input_record()));
    assert_eq!(first.unwrap().unwrap().name(), "Camera 1");
    assert_eq!(iter.pending_index(), Some(1));
    assert!(iter.next(&EnumReply::InvalidIndex).is_none());
    assert_eq!(iter.pending_index(), None);
    // A finished cursor yields nothing, whatever the reply.
    assert!(iter.next(&EnumReply::Record(sample_input_record())).is_none());
}

#[test]
fn input_enumeration_rejects_wrong_echoed_index() {
    let mut iter = InputIter::new();
    iter.next(&EnumReply::Record(sample_input_record())).unwrap().unwrap();
    // The cursor now asks for index 1; a record echoing index 0 is outside
    // the schema.
    match iter.next(&EnumReply::Record(sample_input_record())) {
        Some(Err(e)) => assert_eq!(e, StreamError::MalformedResponse),
        _ => panic!("a mismatched index echo must be rejected"),
    }
    assert_eq!(iter.pending_index(), None);
}

#[test]
fn output_enumeration_reports_hard_failure() {
    let mut iter = OutputIter::new();
    match iter.next(&EnumReply::Failed) {
        Some(Err(e)) => assert_eq!(e, StreamError::Io),
        _ => panic!("a hard failure must be reported"),
    }
    assert_eq!(iter.pending_index(), None);
}

#[test]
fn supported_buf_types_follow_capability_flags() {
    let types = supported_buf_types(CapabilityFlags {
        bits: CAP_VIDEO_CAPTURE | CAP_META_CAPTURE,
    });
    assert_eq!(types, vec![BufType::VideoCapture, BufType::MetaCapture]);
    let types = supported_buf_types(CapabilityFlags {
        bits: CAP_VIDEO_OUTPUT,
    });
    assert_eq!(types, vec![BufType::VideoOutput]);
    assert_eq!(supported_buf_types(CapabilityFlags { bits: 0 }), vec![]);
}

#[test]
fn video_device_names() {
    assert!(is_video_device_name(b"video0"));
    assert!(is_video_device_name(b"vbi1"));
    assert!(is_video_device_name(b"radio0"));
    assert!(is_video_device_name(b"swradio2"));
    assert!(is_video_device_name(b"v4l-touch0"));
    assert!(is_video_device_name(b"v4l-subdev3"));
    assert!(!is_video_device_name(b"null"));
    assert!(!is_video_device_name(b"tty0"));
    assert!(!is_video_device_name(b"v4l"));
}
