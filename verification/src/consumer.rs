use vstd::prelude::*;
use crate::video_frame::EncodedVideoFrame;

verus! {

/// Observed end-to-end latency of one encoded frame: the time elapsed from
/// its capture to its consumption, in milliseconds.
///
/// `now` and the frame's capture timestamp must be drawn from the same
/// monotonic time domain, so that `now` is never behind the capture time;
/// the age is then exact and, being unsigned, never negative.
pub fn frame_age(frame: &EncodedVideoFrame, now: u64) -> (r: u64)
    requires
        now >= frame.timestamp,
    ensures
        r == now - frame.timestamp,
{
    now - frame.timestamp
}

} // verus!
