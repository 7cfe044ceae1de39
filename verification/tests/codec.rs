use linuxvideo::codec::{
    decode_buffer, decode_format, decode_stream_parm, encode_buffer, encode_format,
    encode_stream_parm, BUFFER_DESC_SIZE, FORMAT_SIZE, STREAM_PARM_SIZE,
};
use linuxvideo::{
    BufType, BufferDesc, Format, Fract, Memory, MetaFormat, OverlayFormat, PixFormat,
    PixFormatMplane, Pixelformat, PlaneBank, PlaneFormat, StreamError,
};

fn sample_pix() -> PixFormat {
    PixFormat {
        width: 640,
        height: 480,
        pixelformat: Pixelformat::from_fourcc(b"YUYV"),
        bytesperline: 1280,
        sizeimage: 614400,
        colorspace: 8,
    }
}

#[test]
fn format_encoding_has_fixed_size_and_tag() {
    let bytes = encode_format(&Format::VideoCapture(sample_pix()));
    assert_eq!(bytes.len(), FORMAT_SIZE);
    assert_eq!(&bytes[0..4], &[1, 0, 0, 0]);
    let bytes = encode_format(&Format::MetaCapture(MetaFormat {
        dataformat: Pixelformat::from_fourcc(b"UVCH"),
        buffersize: 256,
    }));
    assert_eq!(&bytes[0..4], &[13, 0, 0, 0]);
}

#[test]
fn format_round_trip_video_capture() {
    let f = Format::VideoCapture(sample_pix());
    let bytes = encode_format(&f);
    assert_eq!(decode_format(&bytes, BufType::VideoCapture), Ok(f));
}

#[test]
fn format_round_trip_meta_and_overlay() {
    let m = Format::MetaOutput(MetaFormat {
        dataformat: Pixelformat::from_fourcc(b"UVCH"),
        buffersize: 1024,
    });
    let bytes = encode_format(&m);
    assert_eq!(decode_format(&bytes, BufType::MetaOutput), Ok(m));

    let w = Format::VideoOverlay(OverlayFormat {
        left: 10,
        top: 20,
        width: 320,
        height: 200,
        chromakey: 0xff00ff,
    });
    let bytes = encode_format(&w);
    assert_eq!(decode_format(&bytes, BufType::VideoOverlay), Ok(w));
}

fn sample_mplane() -> PixFormatMplane {
    let empty = PlaneFormat {
        sizeimage: 0,
        bytesperline: 0,
    };
    PixFormatMplane {
        width: 1920,
        height: 1080,
        pixelformat: Pixelformat::from_fourcc(b"NV12"),
        colorspace: 8,
        planes: PlaneBank {
            count: 2,
            plane0: PlaneFormat {
                sizeimage: 2073600,
                bytesperline: 1920,
            },
            plane1: PlaneFormat {
                sizeimage: 1036800,
                bytesperline: 1920,
            },
            plane2: empty,
            plane3: empty,
            plane4: empty,
            plane5: empty,
            plane6: empty,
            plane7: empty,
        },
    }
}

#[test]
fn format_round_trip_multi_planar() {
    let f = Format::VideoCaptureMplane(sample_mplane());
    let bytes = encode_format(&f);
    assert_eq!(&bytes[0..4], &[9, 0, 0, 0]);
    assert_eq!(decode_format(&bytes, BufType::VideoCaptureMplane), Ok(f));
    let f = Format::VideoOutputMplane(sample_mplane());
    let bytes = encode_format(&f);
    assert_eq!(decode_format(&bytes, BufType::VideoOutputMplane), Ok(f));
}

#[test]
fn format_decode_rejects_plane_count_beyond_capacity() {
    let f = Format::VideoCaptureMplane(sample_mplane());
    let mut bytes = encode_format(&f);
    // The plane-count byte sits after the eight plane slots.
    bytes[188] = 9;
    assert_eq!(
        decode_format(&bytes, BufType::VideoCaptureMplane),
        Err(StreamError::MalformedResponse)
    );
}

#[test]
fn format_decode_rejects_unknown_discriminant() {
    // A discriminant outside the known set must fail, never be guessed at,
    // and the input bytes are left untouched.
    let mut bytes = encode_format(&Format::VideoCapture(sample_pix()));
    bytes[0] = 99;
    let copy = bytes.clone();
    assert_eq!(
        decode_format(&bytes, BufType::VideoCapture),
        Err(StreamError::MalformedResponse)
    );
    assert_eq!(bytes, copy);
}

#[test]
fn format_decode_rejects_mismatched_tag() {
    let bytes = encode_format(&Format::VideoOutput(sample_pix()));
    assert_eq!(
        decode_format(&bytes, BufType::VideoCapture),
        Err(StreamError::MalformedResponse)
    );
}

#[test]
fn format_decode_rejects_wrong_size() {
    let bytes = vec![0u8; FORMAT_SIZE - 1];
    assert_eq!(
        decode_format(&bytes, BufType::VideoCapture),
        Err(StreamError::MalformedResponse)
    );
}

#[test]
fn buffer_desc_round_trip() {
    let b = BufferDesc {
        buf_type: BufType::VideoCapture,
        memory: Memory::Mmap,
        index: 3,
        flags: 0x4,
        bytesused: 4096,
        length: 614400,
        offset: 0x10000,
        timestamp_sec: 1234567,
        timestamp_usec: 250000,
    };
    let bytes = encode_buffer(&b);
    assert_eq!(bytes.len(), BUFFER_DESC_SIZE);
    assert_eq!(decode_buffer(&bytes, BufType::VideoCapture), Ok(b));
}

#[test]
fn buffer_desc_rejects_unknown_memory_mode() {
    let b = BufferDesc {
        buf_type: BufType::VideoCapture,
        memory: Memory::Mmap,
        index: 0,
        flags: 0,
        bytesused: 0,
        length: 4096,
        offset: 0,
        timestamp_sec: 0,
        timestamp_usec: 0,
    };
    let mut bytes = encode_buffer(&b);
    // The memory-mode word sits after the timestamp, timecode and sequence
    // members.
    bytes[60] = 7;
    assert_eq!(
        decode_buffer(&bytes, BufType::VideoCapture),
        Err(StreamError::MalformedResponse)
    );
}

#[test]
fn stream_parm_round_trip() {
    let interval = Fract {
        numerator: 1,
        denominator: 30,
    };
    let bytes = encode_stream_parm(BufType::VideoCapture, &interval);
    assert_eq!(bytes.len(), STREAM_PARM_SIZE);
    assert_eq!(
        decode_stream_parm(&bytes, BufType::VideoCapture),
        Ok(interval)
    );
    assert_eq!(
        decode_stream_parm(&bytes, BufType::VideoOutput),
        Err(StreamError::MalformedResponse)
    );
}
