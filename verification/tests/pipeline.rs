use videopipe::camera::{CameraInfo, CaptureStage};
use videopipe::consumer::frame_age;
use videopipe::encoder::EncodingStage;
use videopipe::video_frame::{EncodedVideoFrame, FrameType, VideoFrame};

#[test]
fn video_frame_new_keeps_fields() {
    let f = VideoFrame::new(42, vec![1, 2, 3]);
    assert_eq!(f.timestamp, 42);
    assert_eq!(f.buffer, vec![1, 2, 3]);
}

#[test]
fn capture_skips_failed_read_and_goes_on() {
    // A device read failure on iteration 3 of 10: the other nine iterations
    // still deliver their frames, in order, and the loop does not terminate.
    let mut cap = CaptureStage::new();
    let mut delivered: Vec<u64> = Vec::new();
    for i in 1..=10u64 {
        let data = if i == 3 { None } else { Some(vec![i as u8; 4]) };
        match cap.on_read(data, i) {
            Some(f) => {
                assert_eq!(f.timestamp, i);
                delivered.push(f.timestamp);
            }
            None => assert_eq!(i, 3),
        }
    }
    assert_eq!(cap.reads_attempted, 10);
    assert_eq!(cap.frames_delivered, 9);
    assert_eq!(delivered, vec![1, 2, 4, 5, 6, 7, 8, 9, 10]);
}

#[test]
fn stub_pipeline_five_frames() {
    // Five synthetic raw frames with strictly increasing timestamps through
    // capture and encoding stage, with a stub encoder that yields one packet
    // per two frames submitted (the packet for frame 0 arrives while frame 1
    // is being submitted, and so on).
    let timestamps: [u64; 5] = [100, 200, 300, 400, 500];
    let mut cap = CaptureStage::new();
    let info = CameraInfo { width: 16, height: 16, framerate: 30 };
    let mut stage = EncodingStage::new(&info);
    let mut observed: Vec<EncodedVideoFrame> = Vec::new();
    for (i, ts) in timestamps.iter().enumerate() {
        let frame = cap.on_read(Some(vec![7u8; 16 * 16 * 3]), *ts).unwrap();
        let drained = if i % 2 == 1 {
            Some((vec![0xAAu8, 0xBB], FrameType::Key))
        } else {
            None
        };
        if let Some(ef) = stage.step(&frame, drained) {
            observed.push(ef);
        }
        // An encoder cannot emit more packets than frames it has received.
        assert!(stage.packets_emitted <= stage.frames_submitted);
    }
    assert_eq!(observed.len(), 2);
    let mut last: u64 = 0;
    for ef in &observed {
        assert!(timestamps.contains(&ef.timestamp));
        assert!(ef.timestamp >= last);
        last = ef.timestamp;
        // The consumer's latency signal is exact and never negative.
        let age = frame_age(ef, 1000);
        assert_eq!(age, 1000 - ef.timestamp);
    }
    assert_eq!(stage.frames_submitted, 5);
    assert_eq!(stage.packets_emitted, 2);
}

#[test]
fn frame_age_exact_value() {
    let ef = EncodedVideoFrame { timestamp: 40, buffer: vec![1], frame_type: FrameType::Inter };
    assert_eq!(frame_age(&ef, 100), 60);
    assert_eq!(frame_age(&ef, 40), 0);
}
