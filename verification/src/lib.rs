//! A three-stage streaming video pipeline: a capture stage stamps raw frames,
//! an encoding stage compresses them through an AV1 encoder, and a consumer
//! reports per-frame end-to-end latency.

pub mod camera;
pub mod consumer;
pub mod encoder;
pub mod video_frame;
