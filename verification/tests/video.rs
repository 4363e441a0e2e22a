use devices::video_encoder::Encoder;
use devices::video_encoder::VideoError;
use devices::video_format::Format;
use devices::video_format::FormatDesc;
use devices::video_format::FormatRange;
use devices::video_format::FrameFormat;
use devices::video_format::Profile;

#[test]
fn profile_to_format() {
    assert_eq!(Profile::H264Baseline.to_format(), Format::H264);
    assert_eq!(Profile::H264MultiviewHigh.to_format(), Format::H264);
    assert_eq!(Profile::HevcMain10.to_format(), Format::HEVC);
    assert_eq!(Profile::VP8Profile2.to_format(), Format::VP8);
    assert_eq!(Profile::VP9Profile3.to_format(), Format::VP9);
}

#[test]
fn frame_format_wire_bytes() {
    let ff = FrameFormat {
        width: FormatRange { min: 64, max: 1920, step: 1 },
        height: FormatRange { min: 64, max: 1080, step: 1 },
        bitrates: vec![FormatRange { min: 100, max: 1000, step: 10 }],
    };
    let mut out = Vec::new();
    ff.write(&mut out);
    let mut expected = Vec::new();
    for v in [64u32, 1920, 1, 64, 1080, 1, 1, 0, 100, 1000, 10] {
        expected.extend_from_slice(&v.to_le_bytes());
    }
    assert_eq!(out, expected);
}

#[test]
fn format_desc_wire_bytes() {
    let desc = FormatDesc {
        mask: 0x3,
        format: Format::H264,
        frame_formats: vec![FrameFormat {
            width: FormatRange { min: 16, max: 32, step: 16 },
            height: FormatRange { min: 16, max: 32, step: 16 },
            bitrates: vec![],
        }],
    };
    let mut out = Vec::new();
    desc.write(&mut out);
    let mut expected = Vec::new();
    expected.extend_from_slice(&3u64.to_le_bytes());
    for v in [0x1002u32, 1, 0, 1] {
        expected.extend_from_slice(&v.to_le_bytes());
    }
    for v in [16u32, 32, 16, 16, 32, 16, 0, 0] {
        expected.extend_from_slice(&v.to_le_bytes());
    }
    assert_eq!(out, expected);
}

#[test]
fn encoder_is_a_stub() {
    let mut encoder = Encoder::new();
    assert_eq!(encoder.process_cmd(), Err(VideoError::InvalidOperation));
    assert!(encoder.process_event_fd(3).is_none());
    assert!(encoder.take_resource_id_to_notify_eos(3).is_none());
}
