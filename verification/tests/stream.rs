use human_detector::stream::{fourcc, SinkFormat, VideoStreamDescriptor, OUTPUT_FOURCC};

#[test]
fn codec_identifier_packs_the_first_byte_lowest() {
    assert_eq!(fourcc(b'a', b'v', b'c', b'1'), 0x31637661);
    assert_eq!(fourcc(1, 0, 0, 0), 1);
    assert_eq!(fourcc(0, 1, 0, 0), 256);
    assert_eq!(fourcc(0, 0, 1, 0), 65536);
    assert_eq!(fourcc(0, 0, 0, 1), 16777216);
    assert_eq!(fourcc(0, 0, 0, 0), 0);
}

#[test]
fn output_codec_is_mp4v() {
    assert_eq!(fourcc(b'm', b'p', b'4', b'v'), OUTPUT_FOURCC);
    assert_eq!(OUTPUT_FOURCC, 0x7634706d);
}

#[test]
fn codec_identifier_with_a_high_last_byte_is_negative() {
    assert_eq!(fourcc(0, 0, 0, 0x80), i32::MIN);
    assert_eq!(fourcc(255, 255, 255, 255), -1);
    assert_eq!(fourcc(255, 255, 255, 0x7f), i32::MAX);
}

#[test]
fn output_has_the_size_and_rate_of_the_input() {
    let stream = VideoStreamDescriptor {
        width: 640,
        height: 480,
        fps_bits: 30.0f64.to_bits(),
        frame_count: 10,
    };
    let format = SinkFormat::for_stream(&stream);
    assert_eq!(
        format,
        SinkFormat {
            fourcc: OUTPUT_FOURCC,
            fps_bits: 30.0f64.to_bits(),
            width: 640,
            height: 480,
            is_color: true,
        }
    );
    assert_eq!(f64::from_bits(format.fps_bits), 30.0);
}

#[test]
fn output_rate_is_carried_bit_for_bit() {
    let rate = 29.97002997002997f64;
    let stream = VideoStreamDescriptor {
        width: 1920,
        height: 1080,
        fps_bits: rate.to_bits(),
        frame_count: -1,
    };
    assert_eq!(f64::from_bits(SinkFormat::for_stream(&stream).fps_bits), rate);
}
