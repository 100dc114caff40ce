use vstd::prelude::*;
use crate::camera::CameraInfo;
use crate::video_frame::{EncodedVideoFrame, FrameType, VideoFrame};
use rav1e::prelude::FrameType as RavFrameType;

verus! {

// ---------------------------------------------------------------------------
// Declarations of the compression engine's types.
// ---------------------------------------------------------------------------

/// Holds rav1e's encoder context, opaque to the verifier. The context's
/// type cannot be declared to Verus directly (its generic parameter
/// carries rav1e's `Pixel` trait as a bound), so it lives behind this
/// holder instead. Every context comes out of `Config::new_context`,
/// which only accepts validated configurations.
#[verifier::external_body]
pub struct RavContext {
    ctx: rav1e::Context<u8>,
}

/// rav1e's frame classification. Declared with its variants visible so the
/// mapping onto the pipeline's own frame kinds can be verified to be total.
#[verifier::external_type_specification]
pub struct ExRavFrameType(RavFrameType);

/// rav1e's configuration-rejection error; opaque. The pipeline maps it to
/// its own error before it crosses any stage boundary.
#[verifier::external_type_specification]
#[verifier::external_body]
pub struct ExInvalidConfig(rav1e::InvalidConfig);

/// rav1e's per-call status code; opaque. The stage treats every status
/// alike (no packet ready), so nothing is read out of it.
#[verifier::external_type_specification]
#[verifier::external_body]
pub struct ExEncoderStatus(rav1e::EncoderStatus);

// ---------------------------------------------------------------------------
// Trusted calls into the compression engine.
// ---------------------------------------------------------------------------

/// Speed preset handed to the encoder: the fastest one it offers.
pub const SPEED_PRESET: u8 = 10;

/// Fixed internal parallelism hint handed to the encoder.
pub const ENCODER_THREADS: usize = 16;

/// Relies on rav1e's `Config::new_context`. The body fixes low-latency
/// mode, no still picture, and the defaults for everything but geometry,
/// speed and threads; under those settings `Config::validate` accepts a
/// configuration exactly when both dimensions lie in `16 ..= 65535`
/// (every speed preset yields an accepted look-ahead setting, and the
/// validation of the remaining defaults is independent of `speed` and
/// `threads`).
#[verifier::external_body]
fn new_rav1e_context(
    width: usize,
    height: usize,
    speed: u8,
    threads: usize,
) -> (r: Result<RavContext, rav1e::InvalidConfig>)
    ensures
        r is Ok <==> (16 <= width <= 65535 && 16 <= height <= 65535),
{
    let enc = rav1e::EncoderConfig {
        width,
        height,
        low_latency: true,
        still_picture: false,
        speed_settings: rav1e::config::SpeedSettings::from_preset(speed),
        ..Default::default()
    };
    let r = rav1e::Config::new().with_encoder_config(enc).with_threads(threads).new_context();
    r.map(|ctx| RavContext { ctx })
}

/// Relies on rav1e's `Context::new_frame` and v_frame's `Frame` layout: a
/// context-allocated frame has three planes, the luma plane has horizontal
/// decimation 0, and each chroma plane's decimation is 0 or 1 (one of the
/// four chroma samplings that a validated configuration can hold).
#[verifier::external_body]
fn plane_decimations(ctx: &RavContext) -> (r: (usize, usize, usize))
    ensures
        r.0 == 0,
        r.1 <= 1,
        r.2 <= 1,
{
    let f = ctx.ctx.new_frame();
    (f.planes[0].cfg.xdec, f.planes[1].cfg.xdec, f.planes[2].cfg.xdec)
}

/// Relies on rav1e's `Context::new_frame` and `Context::send_frame` and on
/// v_frame's `Plane::copy_from_raw_u8` (one byte per sample). The buffer is
/// copied into each plane of a freshly context-allocated frame with the
/// caller's stride, and the frame is submitted. `copy_from_raw_u8` copies
/// row by row, stops at the shorter of plane and buffer, and panics only on
/// a zero stride: context-allocated planes have nonzero strides, and the
/// caller's strides are required nonzero. The frame never leaves the body,
/// so its geometry always matches the context it is submitted to.
#[verifier::external_body]
fn submit_to_encoder(
    ctx: &mut RavContext,
    buffer: &Vec<u8>,
    s0: usize,
    s1: usize,
    s2: usize,
) -> (r: Result<(), rav1e::EncoderStatus>)
    requires
        s0 >= 1,
        s1 >= 1,
        s2 >= 1,
{
    let mut f = ctx.ctx.new_frame();
    f.planes[0].copy_from_raw_u8(buffer, s0, 1);
    f.planes[1].copy_from_raw_u8(buffer, s1, 1);
    f.planes[2].copy_from_raw_u8(buffer, s2, 1);
    ctx.ctx.send_frame(f)
}

/// Relies on rav1e's `Context::receive_packet`: drains at most one ready
/// packet, handing back its data and its frame classification. Every status
/// other than a ready packet (the encoder is buffering, or needs more
/// input) is reported as `None`; absence is not an error.
#[verifier::external_body]
fn drain_encoder(ctx: &mut RavContext) -> (r: Option<(Vec<u8>, RavFrameType)>) {
    match ctx.ctx.receive_packet() {
        Ok(p) => Some((p.data, p.frame_type)),
        Err(_) => None,
    }
}

// ---------------------------------------------------------------------------
// Frame-kind mapping.
// ---------------------------------------------------------------------------

/// The pipeline's frame kind for one of the encoder's classifications.
pub open spec fn spec_frame_kind(t: RavFrameType) -> FrameType {
    match t {
        RavFrameType::KEY => FrameType::Key,
        RavFrameType::INTER => FrameType::Inter,
        RavFrameType::INTRA_ONLY => FrameType::IntraOnly,
        RavFrameType::SWITCH => FrameType::Switch,
    }
}

/// Maps the encoder's frame classification onto the pipeline's closed set
/// of frame kinds.
pub fn convert_frame_type(frame_type: RavFrameType) -> (r: FrameType)
    ensures
        r == spec_frame_kind(frame_type),
{
    match frame_type {
        RavFrameType::KEY => FrameType::Key,
        RavFrameType::INTER => FrameType::Inter,
        RavFrameType::INTRA_ONLY => FrameType::IntraOnly,
        RavFrameType::SWITCH => FrameType::Switch,
    }
}

/// The frame-kind mapping is total and deterministic: each of the four
/// classifications the encoder can report maps to exactly one of the
/// pipeline's frame kinds, and no classification is left unmapped.
pub proof fn lemma_frame_kind_mapping_total(t: RavFrameType)
    ensures
        t == RavFrameType::KEY ==> spec_frame_kind(t) == FrameType::Key,
        t == RavFrameType::INTER ==> spec_frame_kind(t) == FrameType::Inter,
        t == RavFrameType::INTRA_ONLY ==> spec_frame_kind(t) == FrameType::IntraOnly,
        t == RavFrameType::SWITCH ==> spec_frame_kind(t) == FrameType::Switch,
        spec_frame_kind(t) == FrameType::Key || spec_frame_kind(t) == FrameType::Inter
            || spec_frame_kind(t) == FrameType::IntraOnly || spec_frame_kind(t)
            == FrameType::Switch,
{
}

// ---------------------------------------------------------------------------
// The encoding stage's state machine.
// ---------------------------------------------------------------------------

/// Error taxonomy of the encoding stage. Both are logic errors of the
/// caller, not of the device or the encoder.
#[derive(Clone, Copy, Debug, PartialEq, Eq, Structural)]
pub enum EncoderError {
    /// The camera geometry lies outside what the encoder accepts.
    UnsupportedGeometry,
    /// A submitted frame's buffer length does not match the configured
    /// geometry.
    GeometryMismatch,
}

/// The observable state of the encoding stage: the configured geometry,
/// the running counters, and (in ghost state) the full trace of capture
/// timestamps submitted to and emitted by the encoder. The encoder is
/// allowed to buffer, so the two traces need not line up one to one; the
/// invariant `wf` records just how they relate.
pub struct EncodingStage {
    /// Width the encoder was configured with, taken verbatim from the
    /// camera geometry.
    pub width: usize,
    /// Height the encoder was configured with, taken verbatim from the
    /// camera geometry.
    pub height: usize,
    /// Frames submitted to the encoder so far.
    pub frames_submitted: u64,
    /// Packets drained from the encoder so far.
    pub packets_emitted: u64,
    /// Capture timestamps of the submitted frames, in submission order.
    pub submitted: Ghost<Seq<u64>>,
    /// Capture timestamps carried by the emitted packets, in emission order.
    pub emitted: Ghost<Seq<u64>>,
    /// For each emitted packet, the index of the submission during whose
    /// iteration it was drained. Each iteration drains at most one packet,
    /// so these indices are strictly increasing.
    pub emit_idx: Ghost<Seq<int>>,
}

/// How one iteration of the encoding stage changes its state: the frame's
/// capture timestamp is appended to the submission trace, and exactly when
/// a packet came out, that same timestamp is appended to the emission
/// trace and the packet carries it.
pub open spec fn encode_step_spec(
    pre: EncodingStage,
    post: EncodingStage,
    ts: u64,
    r: Option<EncodedVideoFrame>,
) -> bool {
    &&& post.width == pre.width
    &&& post.height == pre.height
    &&& post.frames_submitted == pre.frames_submitted + 1
    &&& post.submitted@ == pre.submitted@.push(ts)
    &&& (r matches Some(ef) ==> {
        &&& ef.timestamp == ts
        &&& post.packets_emitted == pre.packets_emitted + 1
        &&& post.emitted@ == pre.emitted@.push(ts)
    })
    &&& (r is None ==> {
        &&& post.packets_emitted == pre.packets_emitted
        &&& post.emitted@ == pre.emitted@
    })
}

impl EncodingStage {
    /// The stage's invariant: the counters match the ghost traces, and
    /// every emitted packet points back at the submission it was drained
    /// with — at most one per submission, in submission order, carrying
    /// that submission's timestamp.
    pub open spec fn wf(self) -> bool {
        &&& self.submitted@.len() == self.frames_submitted
        &&& self.emitted@.len() == self.packets_emitted
        &&& self.emit_idx@.len() == self.emitted@.len()
        &&& (forall|i: int|
            0 <= i < self.emit_idx@.len() ==> 0 <= #[trigger] self.emit_idx@[i]
                < self.submitted@.len())
        &&& (forall|i: int|
            0 <= i && i + 1 < self.emit_idx@.len() ==> #[trigger] self.emit_idx@[i]
                < self.emit_idx@[i + 1])
        &&& (forall|i: int|
            0 <= i < self.emitted@.len() ==> #[trigger] self.emitted@[i]
                == self.submitted@[self.emit_idx@[i]])
    }

    /// A fresh stage configured with the camera geometry, used verbatim.
    pub fn new(info: &CameraInfo) -> (r: Self)
        ensures
            r.wf(),
            r.width == info.width,
            r.height == info.height,
            r.frames_submitted == 0,
            r.packets_emitted == 0,
            r.submitted@ == Seq::<u64>::empty(),
            r.emitted@ == Seq::<u64>::empty(),
    {
        EncodingStage {
            width: info.width,
            height: info.height,
            frames_submitted: 0,
            packets_emitted: 0,
            submitted: Ghost(Seq::empty()),
            emitted: Ghost(Seq::empty()),
            emit_idx: Ghost(Seq::empty()),
        }
    }

    /// One iteration of the encoding stage, with the encoder's reaction
    /// handed in: `drained` is the at-most-one packet (data and frame
    /// kind) that came out while this frame was being submitted, or `None`
    /// when the encoder kept buffering. When a packet came out, the
    /// submitted frame's capture timestamp is re-attached to it.
    pub fn step(&mut self, frame: &VideoFrame, drained: Option<(Vec<u8>, FrameType)>) -> (r:
        Option<EncodedVideoFrame>)
        requires
            old(self).wf(),
            old(self).frames_submitted < u64::MAX,
        ensures
            final(self).wf(),
            encode_step_spec(*old(self), *final(self), frame.timestamp, r),
            r is Some <==> drained is Some,
            drained matches Some(p) ==> (r matches Some(ef) && ef.buffer@ == p.0@
                && ef.frame_type == p.1),
    {
        let ghost pre = *self;
        self.frames_submitted = self.frames_submitted + 1;
        self.submitted = Ghost(self.submitted@.push(frame.timestamp));
        match drained {
            Some((data, kind)) => {
                proof {
                    lemma_packets_at_most_frames(pre);
                }
                self.packets_emitted = self.packets_emitted + 1;
                self.emitted = Ghost(self.emitted@.push(frame.timestamp));
                self.emit_idx = Ghost(self.emit_idx@.push(pre.submitted@.len() as int));
                proof {
                    assert forall|i: int|
                        0 <= i < self.emit_idx@.len() implies 0 <= #[trigger] self.emit_idx@[i]
                        < self.submitted@.len() by {
                        if i < pre.emit_idx@.len() {
                            assert(pre.emit_idx@[i] < pre.submitted@.len());
                        }
                    }
                    assert forall|i: int|
                        0 <= i && i + 1 < self.emit_idx@.len() implies #[trigger] self.emit_idx@[i]
                        < self.emit_idx@[i + 1] by {
                        assert(self.emit_idx@.len() == pre.emit_idx@.len() + 1);
                        if i + 1 < pre.emit_idx@.len() {
                            assert(pre.emit_idx@[i] < pre.emit_idx@[i + 1]);
                        } else {
                            assert(0 <= i < pre.emit_idx@.len());
                            assert(pre.emit_idx@[i] < pre.submitted@.len());
                        }
                    }
                    assert forall|i: int|
                        0 <= i < self.emitted@.len() implies #[trigger] self.emitted@[i]
                        == self.submitted@[self.emit_idx@[i]] by {
                        if i < pre.emitted@.len() {
                            assert(pre.emitted@[i] == pre.submitted@[pre.emit_idx@[i]]);
                        }
                    }
                }
                Some(EncodedVideoFrame { timestamp: frame.timestamp, buffer: data, frame_type: kind })
            }
            None => None,
        }
    }
}

// ---------------------------------------------------------------------------
// Laws of the encoding stage.
// ---------------------------------------------------------------------------

/// A sequence of timestamps that never goes backwards.
pub open spec fn non_decreasing(s: Seq<u64>) -> bool {
    forall|i: int, j: int| 0 <= i <= j < s.len() ==> s[i] <= s[j]
}

/// In a well-formed stage the emission indices grow at least as fast as
/// their position: the packet at position `i` was drained at submission
/// `emit_idx[i] >= i`.
proof fn lemma_emit_idx_at_least(s: EncodingStage, i: int)
    requires
        s.wf(),
        0 <= i < s.emit_idx@.len(),
    ensures
        s.emit_idx@[i] >= i,
    decreases i,
{
    if i > 0 {
        lemma_emit_idx_at_least(s, i - 1);
        assert(s.emit_idx@[i - 1] < s.emit_idx@[i]);
    }
}

/// Emission indices are non-decreasing across any two positions.
proof fn lemma_emit_idx_increasing(s: EncodingStage, i: int, j: int)
    requires
        s.wf(),
        0 <= i <= j < s.emit_idx@.len(),
    ensures
        s.emit_idx@[i] <= s.emit_idx@[j],
    decreases j - i,
{
    if i < j {
        lemma_emit_idx_increasing(s, i, j - 1);
        assert(s.emit_idx@[j - 1] < s.emit_idx@[j]);
    }
}

/// An encoder cannot emit more packets than frames it has received: in
/// every reachable state of the encoding stage, the packet count is at
/// most the frame count submitted so far.
pub proof fn lemma_packets_at_most_frames(s: EncodingStage)
    requires
        s.wf(),
    ensures
        s.packets_emitted <= s.frames_submitted,
{
    if s.emit_idx@.len() > 0 {
        let last = s.emit_idx@.len() - 1;
        lemma_emit_idx_at_least(s, last);
        assert(s.emit_idx@[last] < s.submitted@.len());
    }
}

/// Every emitted packet carries the capture timestamp of some raw frame
/// that was submitted no later than the emission.
pub proof fn lemma_emitted_timestamp_from_submission(s: EncodingStage, i: int)
    requires
        s.wf(),
        0 <= i < s.emitted@.len(),
    ensures
        exists|k: int| 0 <= k < s.submitted@.len() && s.emitted@[i] == s.submitted@[k],
{
    let k = s.emit_idx@[i];
    assert(0 <= k < s.submitted@.len() && s.emitted@[i] == s.submitted@[k]);
}

/// Timestamp monotonicity: when the raw frames are submitted with
/// non-decreasing capture timestamps, the encoded frames come out with
/// non-decreasing timestamps too.
pub proof fn lemma_emitted_timestamps_monotonic(s: EncodingStage)
    requires
        s.wf(),
        non_decreasing(s.submitted@),
    ensures
        non_decreasing(s.emitted@),
{
    assert forall|i: int, j: int|
        0 <= i <= j < s.emitted@.len() implies s.emitted@[i] <= s.emitted@[j] by {
        lemma_emit_idx_increasing(s, i, j);
        let ki = s.emit_idx@[i];
        let kj = s.emit_idx@[j];
        assert(0 <= ki <= kj < s.submitted@.len());
        assert(s.submitted@[ki] <= s.submitted@[kj]);
    }
}

// ---------------------------------------------------------------------------
// The encoding stage bound to the real encoder.
// ---------------------------------------------------------------------------

/// Buffer length the stage expects of a raw frame under the configured
/// geometry: three bytes per pixel, the capture device's packed layout.
pub open spec fn expected_buffer_len(width: int, height: int) -> int {
    width * height * 3
}

/// Stride with which a raw buffer is copied into one plane of the
/// encoder's native frame: the configured width, reduced by the plane's
/// horizontal decimation shift.
pub open spec fn spec_plane_stride(width: int, xdec: int) -> int {
    if xdec == 0 {
        width
    } else {
        (width + 1) / 2
    }
}

fn plane_stride(width: usize, xdec: usize) -> (r: usize)
    requires
        16 <= width <= 65535,
        xdec <= 1,
    ensures
        r == spec_plane_stride(width as int, xdec as int),
        r >= 8,
{
    if xdec == 0 {
        width
    } else {
        (width + 1) / 2
    }
}

/// The encoding stage together with the encoder instance it owns. The
/// encoder is configured exactly once, from the camera geometry, and the
/// configuration is immutable for the stage's lifetime.
pub struct Encoder {
    ctx: RavContext,
    stage: EncodingStage,
    xdec_y: usize,
    xdec_u: usize,
    xdec_v: usize,
}

/// An encoder handle is observed through its stage state: the configured
/// geometry, the counters, and the ghost traces.
impl View for Encoder {
    type V = EncodingStage;

    closed spec fn view(&self) -> EncodingStage {
        self.stage
    }
}

impl Encoder {
    /// The stage state, for callers that read the counters.
    pub fn stage(&self) -> (r: &EncodingStage)
        ensures
            *r == self@,
    {
        &self.stage
    }

    /// The handle's invariant: the stage is well formed, the configured
    /// geometry is one the encoder accepted, and the recorded plane
    /// decimations are the ones of the encoder's native frame.
    pub closed spec fn wf(self) -> bool {
        &&& self.stage.wf()
        &&& 16 <= self.stage.width <= 65535
        &&& 16 <= self.stage.height <= 65535
        &&& self.xdec_y == 0
        &&& self.xdec_u <= 1
        &&& self.xdec_v <= 1
    }

    /// Builds the encoder for the camera's geometry, used verbatim, in
    /// low-latency mode with a fixed parallelism hint. Succeeds exactly
    /// when both dimensions lie in `16 ..= 65535`; the encoder's own
    /// rejection never crosses this boundary as data.
    pub fn configure(info: &CameraInfo) -> (r: Result<Encoder, EncoderError>)
        ensures
            r is Ok <==> (16 <= info.width <= 65535 && 16 <= info.height <= 65535),
            r matches Ok(e) ==> {
                &&& e.wf()
                &&& e@.width == info.width
                &&& e@.height == info.height
                &&& e@.frames_submitted == 0
                &&& e@.packets_emitted == 0
                &&& e@.submitted@ == Seq::<u64>::empty()
                &&& e@.emitted@ == Seq::<u64>::empty()
            },
            r matches Err(err) ==> err == EncoderError::UnsupportedGeometry,
    {
        match new_rav1e_context(info.width, info.height, SPEED_PRESET, ENCODER_THREADS) {
            Ok(ctx) => {
                let (xdec_y, xdec_u, xdec_v) = plane_decimations(&ctx);
                Ok(Encoder { ctx, stage: EncodingStage::new(info), xdec_y, xdec_u, xdec_v })
            },
            Err(_) => Err(EncoderError::UnsupportedGeometry),
        }
    }

    /// One iteration of the encoding stage against the real encoder:
    /// rejects a frame whose buffer length does not match the configured
    /// geometry (leaving the stage untouched); otherwise binds the buffer
    /// into the encoder's native frame plane by plane, submits it, drains
    /// at most one ready packet, and re-attaches the submitted frame's
    /// capture timestamp to it. Whether a packet comes out is the
    /// encoder's choice; both outcomes satisfy the step relation.
    pub fn encode_frame(&mut self, frame: &VideoFrame) -> (r: Result<
        Option<EncodedVideoFrame>,
        EncoderError,
    >)
        requires
            old(self).wf(),
            old(self)@.frames_submitted < u64::MAX,
        ensures
            final(self).wf(),
            r is Ok <==> frame.buffer@.len() == expected_buffer_len(
                old(self)@.width as int,
                old(self)@.height as int,
            ),
            r matches Err(e) ==> e == EncoderError::GeometryMismatch && final(self)@ == old(
                self,
            )@,
            r matches Ok(opt) ==> encode_step_spec(
                old(self)@,
                final(self)@,
                frame.timestamp,
                opt,
            ),
    {
        let w = self.stage.width;
        let h = self.stage.height;
        proof {
            assert((w as u64) * (h as u64) * 3 == expected_buffer_len(w as int, h as int)
                && (w as u64) * (h as u64) * 3 <= 65535 * 65535 * 3) by (nonlinear_arith)
                requires
                    16 <= w <= 65535,
                    16 <= h <= 65535,
            ;
        }
        let expected: u64 = (w as u64) * (h as u64) * 3;
        if frame.buffer.len() as u64 != expected {
            return Err(EncoderError::GeometryMismatch);
        }
        let s0 = plane_stride(w, self.xdec_y);
        let s1 = plane_stride(w, self.xdec_u);
        let s2 = plane_stride(w, self.xdec_v);
        let _status = submit_to_encoder(&mut self.ctx, &frame.buffer, s0, s1, s2);
        let drained = match drain_encoder(&mut self.ctx) {
            Some((data, t)) => Some((data, convert_frame_type(t))),
            None => None,
        };
        Ok(self.stage.step(frame, drained))
    }
}

} // verus!
