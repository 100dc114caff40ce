use videopipe::camera::CameraInfo;
use videopipe::encoder::{convert_frame_type, Encoder, EncoderError};
use videopipe::video_frame::{FrameType, VideoFrame};

#[test]
fn frame_kind_mapping_covers_all_four() {
    assert_eq!(convert_frame_type(rav1e::prelude::FrameType::KEY), FrameType::Key);
    assert_eq!(convert_frame_type(rav1e::prelude::FrameType::INTER), FrameType::Inter);
    assert_eq!(convert_frame_type(rav1e::prelude::FrameType::INTRA_ONLY), FrameType::IntraOnly);
    assert_eq!(convert_frame_type(rav1e::prelude::FrameType::SWITCH), FrameType::Switch);
}

#[test]
fn configure_rejects_unsupported_geometry() {
    let too_small = CameraInfo { width: 8, height: 720, framerate: 30 };
    assert!(matches!(Encoder::configure(&too_small), Err(EncoderError::UnsupportedGeometry)));
    let too_large = CameraInfo { width: 1280, height: 70000, framerate: 30 };
    assert!(matches!(Encoder::configure(&too_large), Err(EncoderError::UnsupportedGeometry)));
    let smallest = CameraInfo { width: 16, height: 16, framerate: 30 };
    assert!(Encoder::configure(&smallest).is_ok());
}

#[test]
fn geometry_is_used_verbatim() {
    let info = CameraInfo { width: 1280, height: 720, framerate: 30 };
    let mut enc = Encoder::configure(&info).unwrap();
    assert_eq!(enc.stage().width, 1280);
    assert_eq!(enc.stage().height, 720);
    // A frame whose buffer length corresponds to any other geometry is
    // rejected, and the stage is left untouched.
    let wrong = VideoFrame::new(1, vec![0u8; 640 * 480 * 3]);
    assert!(matches!(enc.encode_frame(&wrong), Err(EncoderError::GeometryMismatch)));
    assert_eq!(enc.stage().frames_submitted, 0);
    assert_eq!(enc.stage().packets_emitted, 0);
}

#[test]
fn real_encoder_round_trip() {
    // Feed the real encoder, at its smallest worthwhile geometry, frames
    // with increasing capture timestamps; low-latency mode must yield
    // packets, each carrying one of the submitted timestamps, observed in
    // non-decreasing order.
    let info = CameraInfo { width: 64, height: 48, framerate: 30 };
    let mut enc = Encoder::configure(&info).unwrap();
    let mut submitted: Vec<u64> = Vec::new();
    let mut emitted: Vec<(u64, FrameType)> = Vec::new();
    for i in 0..40u64 {
        let ts = 10 * i;
        submitted.push(ts);
        let frame = VideoFrame::new(ts, vec![(i as u8).wrapping_mul(3); 64 * 48 * 3]);
        let out = enc.encode_frame(&frame).unwrap();
        if let Some(ef) = out {
            assert!(!ef.buffer.is_empty());
            emitted.push((ef.timestamp, ef.frame_type));
        }
        assert!(enc.stage().packets_emitted <= enc.stage().frames_submitted);
    }
    assert_eq!(enc.stage().frames_submitted, 40);
    assert!(!emitted.is_empty());
    let mut last: u64 = 0;
    for (ts, _kind) in &emitted {
        assert!(submitted.contains(ts));
        assert!(*ts >= last);
        last = *ts;
    }
}
