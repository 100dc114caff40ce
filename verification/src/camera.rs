use vstd::prelude::*;
use crate::video_frame::VideoFrame;

verus! {

/// Geometry and rate metadata reported once by the capture device at
/// startup; read-only thereafter. The encoding stage is configured from
/// these values verbatim.
pub struct CameraInfo {
    pub width: usize,
    pub height: usize,
    pub framerate: u32,
}

/// The capture loop's decision logic, as a state machine driven by one
/// event per device read. The blocking device read itself happens outside
/// the library; each completed read (successful or not) is handed to
/// `on_read` together with a capture timestamp taken as close as possible
/// to the read.
///
/// A failed read is skipped: it produces no frame and the loop goes on to
/// the next read. The stage never reaches a terminal state.
pub struct CaptureStage {
    /// Device reads attempted so far, failed ones included.
    pub reads_attempted: u64,
    /// Frames actually produced and handed downstream.
    pub frames_delivered: u64,
    /// Capture timestamps of the delivered frames, in delivery order.
    pub delivered: Ghost<Seq<u64>>,
}

impl CaptureStage {
    /// The stage's invariant: the delivered trace matches the counter, and
    /// no more frames were delivered than reads attempted.
    pub open spec fn wf(self) -> bool {
        &&& self.delivered@.len() == self.frames_delivered
        &&& self.frames_delivered <= self.reads_attempted
    }

    pub fn new() -> (r: Self)
        ensures
            r.wf(),
            r.reads_attempted == 0,
            r.frames_delivered == 0,
            r.delivered@ == Seq::<u64>::empty(),
    {
        CaptureStage { reads_attempted: 0, frames_delivered: 0, delivered: Ghost(Seq::empty()) }
    }

    /// One iteration of the capture loop: `data` is the raw bytes of a
    /// completed device read, or `None` for a failed read; `now` is the
    /// capture timestamp. A successful read yields exactly one frame
    /// stamped with `now`; a failed read yields nothing and the stage
    /// stays ready for the next read.
    pub fn on_read(&mut self, data: Option<Vec<u8>>, now: u64) -> (r: Option<VideoFrame>)
        requires
            old(self).wf(),
            old(self).reads_attempted < u64::MAX,
        ensures
            final(self).wf(),
            final(self).reads_attempted == old(self).reads_attempted + 1,
            r is Some <==> data is Some,
            data matches Some(buf) ==> {
                &&& r matches Some(f) && f.timestamp == now && f.buffer@ == buf@
                &&& final(self).frames_delivered == old(self).frames_delivered + 1
                &&& final(self).delivered@ == old(self).delivered@.push(now)
            },
            data is None ==> {
                &&& final(self).frames_delivered == old(self).frames_delivered
                &&& final(self).delivered@ == old(self).delivered@
            },
    {
        self.reads_attempted = self.reads_attempted + 1;
        match data {
            Some(buf) => {
                self.frames_delivered = self.frames_delivered + 1;
                self.delivered = Ghost(self.delivered@.push(now));
                Some(VideoFrame::new(now, buf))
            }
            None => None,
        }
    }
}

} // verus!
