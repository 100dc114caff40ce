use vstd::prelude::*;

verus! {

/// A timestamped, uncompressed pixel buffer as captured from the device.
/// Timestamps are milliseconds in a single monotonic time domain chosen by
/// the caller; the pipeline only ever compares and subtracts them.
pub struct VideoFrame {
    pub timestamp: u64,
    pub buffer: Vec<u8>,
}

impl VideoFrame {
    pub fn new(timestamp: u64, buffer: Vec<u8>) -> (r: Self)
        ensures
            r.timestamp == timestamp,
            r.buffer@ == buffer@,
    {
        Self { timestamp, buffer }
    }
}

/// Dependency role of a compressed access unit.
#[derive(Clone, Copy, Debug, PartialEq, Eq, Structural)]
pub enum FrameType {
    /// Independently decodable seek point.
    Key,
    /// Depends on prior frames.
    Inter,
    /// Independently decodable but not a seek point.
    IntraOnly,
    /// Decodable transition point.
    Switch,
}

/// A timestamped compressed packet produced by the encoder, tagged with the
/// classification of the compressed unit. The timestamp is carried forward
/// unchanged from the raw frame that was being submitted when the packet
/// was drained, never an encode-completion time.
pub struct EncodedVideoFrame {
    pub timestamp: u64,
    pub buffer: Vec<u8>,
    pub frame_type: FrameType,
}

} // verus!
