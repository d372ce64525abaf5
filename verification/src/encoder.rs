//! H.264 encoding of captured frames.

use crate::capture::CapturedFrame;
use crate::color::{bgra_to_yuv420p, i420};
use crate::message::FrameType;
use openh264::encoder::{
    BitRate, Encoder, EncoderConfig, FrameRate, IntraFramePeriod, RateControlMode, UsageType,
};
use openh264::formats::YUVBuffer;
use openh264::OpenH264API;
use vstd::prelude::*;

verus! {

/// The target bit rate, in bits per second.
pub const BITRATE_BPS: u32 = 15_000_000;

/// The longest slice, so that a slice fits a datagram.
pub const MAX_SLICE_LEN: u32 = 1_200;

pub const ENCODER_THREADS: u16 = 4;

/// The longest side of a picture that can be encoded.
pub const MAX_LONG_SIDE: u32 = 3_840;

/// The longest short side of a picture that can be encoded.
pub const MAX_SHORT_SIDE: u32 = 2_160;

/// `openh264::encoder::Encoder`.
#[verifier::external_type_specification]
#[verifier::external_body]
pub struct ExEncoder(openh264::encoder::Encoder);

/// `openh264::Error`.
#[verifier::external_type_specification]
#[verifier::external_body]
pub struct ExOpenH264Error(openh264::Error);

/// A frame as the encoder puts it out.
#[derive(Debug, Clone)]
pub struct EncodedFrame {
    /// The frame's units, one after the other.
    pub nal_units: Vec<u8>,
    pub frame_type: FrameType,
    pub display_index: u32,
    /// When the frame was captured, in milliseconds by the frame rate.
    pub pts: i64,
    pub width: u32,
    pub height: u32,
}

/// What kind of pictures an encoder is meant for.
#[derive(Debug, Clone, Copy, PartialEq, Eq, Structural)]
pub enum Usage {
    Camera,
    Screen,
}

/// What an encoder keeps constant.
#[derive(Debug, Clone, Copy, PartialEq, Eq, Structural)]
pub enum RateControl {
    Quality,
    Bitrate,
}

/// How an encoder is set up. Every group of frames begins with one that can be
/// decoded on its own.
#[derive(Debug, Clone, Copy, PartialEq, Eq, Structural)]
pub struct EncoderSettings {
    pub usage: Usage,
    pub rate_control: RateControl,
    pub bitrate_bps: u32,
    pub max_frame_rate: u32,
    pub group_len: u32,
    pub max_slice_len: u32,
    pub threads: u16,
}

/// What the codec says of a frame that it encoded.
#[derive(Debug, Clone, Copy, PartialEq, Eq, Structural)]
pub enum RawFrameType {
    Invalid,
    Idr,
    I,
    P,
    Skip,
    Mixed,
}

/// What the codec makes of a picture.
#[derive(Debug)]
pub struct RawFrame {
    pub kind: RawFrameType,
    pub data: Vec<u8>,
}

/// What the codec is told for a frame.
#[derive(Debug)]
pub struct CodecCall {
    /// How to set the codec up anew, if that has to come first.
    pub renew: Option<EncoderSettings>,
    /// Whether to ask for a frame that can be decoded on its own.
    pub force_intra: bool,
    /// The picture, in I420.
    pub picture: Vec<u8>,
}

/// Why a frame could not be encoded.
#[derive(Debug)]
pub enum EncodeError {
    /// The codec could not be set up.
    Create(openh264::Error),
    /// The codec refused the frame with the given number.
    Encode { frame: u64, source: openh264::Error },
}

/// A call to the codec.
pub enum EncoderCall {
    /// It was asked for a frame that can be decoded on its own.
    ForceIntra,
    /// It was given a picture in I420, and answered.
    Encode {
        picture: Seq<u8>,
        width: u32,
        height: u32,
        answer: Result<RawFrame, openh264::Error>,
    },
}

/// How a codec was set up, and what it was told since.
pub struct EncoderRecord {
    pub settings: EncoderSettings,
    pub calls: Seq<EncoderCall>,
}

/// The codec, with a record of what it was told.
pub struct EncoderCodec {
    encoder: Encoder,
    record: Ghost<EncoderRecord>,
}

impl View for EncoderCodec {
    type V = EncoderRecord;

    closed spec fn view(&self) -> EncoderRecord {
        self.record@
    }
}

/// An attempt to set a codec up, and the error if it failed.
pub struct EncoderSetUp {
    pub settings: EncoderSettings,
    pub error: Option<openh264::Error>,
}

/// A record of the attempts to set a codec up.
pub struct EncoderSetUps {
    record: Ghost<Seq<EncoderSetUp>>,
}

impl View for EncoderSetUps {
    type V = Seq<EncoderSetUp>;

    closed spec fn view(&self) -> Seq<EncoderSetUp> {
        self.record@
    }
}

impl EncoderSetUps {
    /// A record without an attempt.
    fn new() -> (s: Self)
        ensures
            s@ == Seq::<EncoderSetUp>::empty(),
    {
        EncoderSetUps { record: Ghost(Seq::empty()) }
    }
}

/// A codec that was just set up.
pub open spec fn fresh(settings: EncoderSettings) -> EncoderRecord {
    EncoderRecord { settings, calls: Seq::empty() }
}

/// The attempt to set a codec up that gave `r`.
pub open spec fn attempt(
    settings: EncoderSettings,
    r: Result<EncoderCodec, openh264::Error>,
) -> EncoderSetUp {
    EncoderSetUp {
        settings,
        error: match r {
            Ok(_) => None,
            Err(e) => Some(e),
        },
    }
}

/// A codec after one more call.
pub open spec fn called(codec: EncoderRecord, call: EncoderCall) -> EncoderRecord {
    EncoderRecord { calls: codec.calls.push(call), ..codec }
}

/// `openh264::encoder::Encoder::with_api_config`, with a configuration of the given
/// settings. The attempt is added to the record of attempts, with its error; the
/// codec's own record begins with the settings and no call. Whether the call succeeds
/// is left open, and so is what the encoder will do.
#[verifier::external_body]
fn create(settings: &EncoderSettings, set_ups: &mut EncoderSetUps) -> (r: Result<
    EncoderCodec,
    openh264::Error,
>)
    ensures
        final(set_ups)@ == old(set_ups)@.push(attempt(*settings, r)),
        r matches Ok(codec) ==> codec@ == fresh(*settings),
{
    let usage = match settings.usage {
        Usage::Camera => UsageType::CameraVideoRealTime,
        Usage::Screen => UsageType::ScreenContentRealTime,
    };
    let rate_control = match settings.rate_control {
        RateControl::Quality => RateControlMode::Quality,
        RateControl::Bitrate => RateControlMode::Bitrate,
    };
    let config = EncoderConfig::new().bitrate(BitRate::from_bps(settings.bitrate_bps))
        .max_frame_rate(FrameRate::from_hz(settings.max_frame_rate as _))
        .usage_type(usage).rate_control_mode(rate_control)
        .intra_frame_period(IntraFramePeriod::from_num_frames(settings.group_len))
        .max_slice_len(settings.max_slice_len).num_threads(settings.threads);
    let encoder = Encoder::with_api_config(OpenH264API::from_source(), config)?;
    Ok(EncoderCodec { encoder, record: Ghost(fresh(*settings)) })
}

/// `openh264::encoder::Encoder::force_intra_frame`: asks for a frame that can be
/// decoded on its own. The call is added to the record. Whether the encoder complies
/// is left open.
#[verifier::external_body]
fn force_intra_frame(codec: &mut EncoderCodec)
    ensures
        final(codec)@ == called(old(codec)@, EncoderCall::ForceIntra),
{
    codec.encoder.force_intra_frame()
}

/// Whether a picture is larger than any that can be encoded.
pub open spec fn oversized(width: int, height: int) -> bool {
    width > MAX_LONG_SIDE || height > MAX_LONG_SIDE || (width > MAX_SHORT_SIDE && height
        > MAX_SHORT_SIDE)
}

/// `openh264::encoder::Encoder::encode` on the I420 form of a frame, with the frame
/// type and the bytes of its result. The call is added to the record, with its
/// answer. Pictures that are too large are refused; what becomes of others depends on
/// what the encoder has seen, and is left open.
#[verifier::external_body]
fn encode_picture(codec: &mut EncoderCodec, frame: &CapturedFrame, picture: Vec<u8>) -> (r: Result<
    RawFrame,
    openh264::Error,
>)
    requires
        encodable(*frame),
        picture@ == i420(frame.cpu_buffer@, frame.width as int, frame.height as int),
        picture@.len() == 3 * (frame.width * frame.height) / 2,
        3 * (frame.width * frame.height) <= usize::MAX,
    ensures
        final(codec)@ == called(
            old(codec)@,
            (EncoderCall::Encode {
                picture: picture@,
                width: frame.width,
                height: frame.height,
                answer: r,
            }),
        ),
        oversized(frame.width as int, frame.height as int) && frame.width <= i32::MAX
            && frame.height <= i32::MAX ==> r is Err,
{
    let yuv = YUVBuffer::from_vec(picture, frame.width as usize, frame.height as usize);
    let stream = codec.encoder.encode(&yuv)?;
    let kind = match stream.frame_type() {
        openh264::encoder::FrameType::Invalid => RawFrameType::Invalid,
        openh264::encoder::FrameType::IDR => RawFrameType::Idr,
        openh264::encoder::FrameType::I => RawFrameType::I,
        openh264::encoder::FrameType::P => RawFrameType::P,
        openh264::encoder::FrameType::Skip => RawFrameType::Skip,
        openh264::encoder::FrameType::IPMixed => RawFrameType::Mixed,
    };
    Ok(RawFrame { kind, data: stream.to_vec() })
}

/// How an encoder for a frame rate is set up: a group lasts one second.
pub open spec fn settings_for(fps: u32) -> EncoderSettings {
    EncoderSettings {
        usage: Usage::Screen,
        rate_control: RateControl::Bitrate,
        bitrate_bps: BITRATE_BPS,
        max_frame_rate: fps,
        group_len: fps,
        max_slice_len: MAX_SLICE_LEN,
        threads: ENCODER_THREADS,
    }
}

/// How an encoder for a frame rate is set up.
pub fn encoder_settings(fps: u32) -> (s: EncoderSettings)
    ensures
        s == settings_for(fps),
{
    EncoderSettings {
        usage: Usage::Screen,
        rate_control: RateControl::Bitrate,
        bitrate_bps: BITRATE_BPS,
        max_frame_rate: fps,
        group_len: fps,
        max_slice_len: MAX_SLICE_LEN,
        threads: ENCODER_THREADS,
    }
}

/// Encodes frames; software and hardware encoders have this in common.
pub trait VideoEncoder: Send {
    /// What the encoder keeps between frames.
    spec fn state(&self) -> EncoderState;

    /// Encodes a frame. No frame comes out when the encoder skips it. A codec that was
    /// asked for a frame that can be decoded on its own is set up anew first.
    fn encode(&mut self, frame: &CapturedFrame) -> (r: Result<Vec<EncodedFrame>, EncodeError>)
        requires
            takes(old(self).state(), *frame),
        ensures
            encoded(old(self).state(), *frame, final(self).state(), r),
            r matches Ok(frames) ==> carry_over(frames@, *frame),
    ;

    /// Asks for a frame that can be decoded on its own: the next frame comes from a
    /// codec that is set up anew.
    fn request_keyframe(&mut self)
        ensures
            final(self).state() == (EncoderState { reset_requested: true, ..old(self).state() }),
    ;
}

/// Whether encoded frames are of the size and the display of the captured one, and
/// none of them is empty.
pub open spec fn carry_over(frames: Seq<EncodedFrame>, frame: CapturedFrame) -> bool {
    forall|i: int|
        0 <= i < frames.len() ==> {
            &&& (#[trigger] frames[i]).width == frame.width
            &&& frames[i].height == frame.height
            &&& frames[i].display_index == frame.display_index
            &&& frames[i].nal_units@.len() > 0
        }
}

/// What an encoder keeps between frames.
pub struct EncoderState {
    /// The attempts to set a codec up.
    pub set_ups: Seq<EncoderSetUp>,
    /// The codec.
    pub codec: EncoderRecord,
    pub width: u32,
    pub height: u32,
    pub fps: u32,
    pub force_keyframe: bool,
    pub reset_requested: bool,
    pub frame_count: u64,
}

/// Encodes in software.
pub struct OpenH264Encoder {
    set_ups: EncoderSetUps,
    codec: EncoderCodec,
    width: u32,
    height: u32,
    fps: u32,
    force_keyframe: bool,
    reset_requested: bool,
    frame_count: u64,
}

impl View for OpenH264Encoder {
    type V = EncoderState;

    closed spec fn view(&self) -> EncoderState {
        EncoderState {
            set_ups: self.set_ups@,
            codec: self.codec@,
            width: self.width,
            height: self.height,
            fps: self.fps,
            force_keyframe: self.force_keyframe,
            reset_requested: self.reset_requested,
            frame_count: self.frame_count,
        }
    }
}

/// Whether a frame has even sides and the colours of all its pixels.
pub open spec fn encodable(frame: CapturedFrame) -> bool {
    &&& frame.width % 2 == 0
    &&& frame.height % 2 == 0
    &&& 4 * (frame.width * frame.height) <= frame.cpu_buffer@.len() + 1
}

/// Whether the time of frame number `count` can be computed.
pub open spec fn timeable(count: int, fps: u32) -> bool {
    fps > 0 && count * 1_000 <= i64::MAX
}

/// Whether a frame can be encoded in a state.
pub open spec fn takes(s: EncoderState, frame: CapturedFrame) -> bool {
    encodable(frame) && timeable(s.frame_count + 1, s.fps)
}

/// The state of an encoder that was just set up, at the first attempt.
pub open spec fn initial(width: u32, height: u32, fps: u32) -> EncoderState {
    EncoderState {
        set_ups: seq![EncoderSetUp { settings: settings_for(fps), error: None }],
        codec: fresh(settings_for(fps)),
        width,
        height,
        fps,
        force_keyframe: false,
        reset_requested: false,
        frame_count: 0,
    }
}

/// The state once it was tried to set the codec up anew, if that was asked for, with
/// the error if it failed.
pub open spec fn tried(s: EncoderState, error: Option<openh264::Error>) -> EncoderState {
    if s.reset_requested {
        EncoderState {
            set_ups: s.set_ups.push(EncoderSetUp { settings: settings_for(s.fps), error }),
            ..prepared(s)
        }
    } else {
        prepared(s)
    }
}

/// The state before the codec is called for a frame: one frame more, and nothing left
/// to do from an earlier request.
pub open spec fn prepared(s: EncoderState) -> EncoderState {
    EncoderState {
        frame_count: (s.frame_count + 1) as u64,
        force_keyframe: s.force_keyframe && !s.reset_requested,
        reset_requested: false,
        ..s
    }
}

/// Whether `call` is what the codec has to be told for a frame.
pub open spec fn is_call(call: CodecCall, s: EncoderState, frame: CapturedFrame) -> bool {
    &&& call.renew == if s.reset_requested {
        Some(settings_for(s.fps))
    } else {
        None
    }
    &&& call.force_intra == prepared(s).force_keyframe
    &&& call.picture@ == i420(frame.cpu_buffer@, frame.width as int, frame.height as int)
}

/// Whether the codec's answer is passed over.
pub open spec fn is_skipped(raw: RawFrame) -> bool {
    raw.kind == RawFrameType::Skip || raw.kind == RawFrameType::Invalid
}

/// The state after the codec's answer: a request for a frame that can be decoded on
/// its own stands until a frame comes out.
pub open spec fn concluded(s: EncoderState, raw: RawFrame) -> EncoderState {
    if is_skipped(raw) {
        s
    } else {
        EncoderState { force_keyframe: false, ..s }
    }
}

/// Whether `frames` is what the codec's answer amounts to: nothing if it is passed
/// over or empty, and otherwise one frame.
pub open spec fn are_frames(
    frames: Seq<EncodedFrame>,
    s: EncoderState,
    frame: CapturedFrame,
    raw: RawFrame,
) -> bool {
    if is_skipped(raw) || raw.data@.len() == 0 {
        frames.len() == 0
    } else {
        &&& frames.len() == 1
        &&& frames[0].nal_units@ == raw.data@
        &&& frames[0].frame_type == if raw.kind == RawFrameType::Idr || raw.kind
            == RawFrameType::I {
            FrameType::Keyframe
        } else {
            FrameType::Delta
        }
        &&& frames[0].display_index == frame.display_index
        &&& frames[0].pts == s.frame_count * 1_000 / s.fps as int
        &&& frames[0].width == frame.width
        &&& frames[0].height == frame.height
    }
}

/// What the codec is told for a frame in state `s`, with the answer that it gives: it
/// is set up anew if that was asked for, it may be asked for a frame that can be
/// decoded on its own, and it is given the frame's picture.
pub open spec fn told(
    s: EncoderState,
    frame: CapturedFrame,
    answer: Result<RawFrame, openh264::Error>,
) -> EncoderRecord {
    let codec = if s.reset_requested {
        fresh(settings_for(s.fps))
    } else {
        s.codec
    };
    let asked = if prepared(s).force_keyframe {
        called(codec, EncoderCall::ForceIntra)
    } else {
        codec
    };
    called(
        asked,
        EncoderCall::Encode {
            picture: i420(frame.cpu_buffer@, frame.width as int, frame.height as int),
            width: frame.width,
            height: frame.height,
            answer,
        },
    )
}

/// The codec's last answer.
pub open spec fn last_answer(codec: EncoderRecord) -> Result<RawFrame, openh264::Error> {
    codec.calls.last()->answer
}

/// Whether the codec's answer for a frame leads from the state `before` to `after`,
/// with the result `r`.
pub open spec fn encodes(
    before: EncoderState,
    frame: CapturedFrame,
    answer: Result<RawFrame, openh264::Error>,
    after: EncoderState,
    r: Result<Vec<EncodedFrame>, EncodeError>,
) -> bool {
    let s = EncoderState { codec: told(before, frame, answer), ..tried(before, None) };
    match answer {
        Ok(raw) => {
            &&& after == concluded(s, raw)
            &&& r matches Ok(frames) && are_frames(frames@, s, frame, raw)
        },
        Err(e) => {
            &&& after == s
            &&& r matches Err(EncodeError::Encode { frame: n, source }) && n == s.frame_count
                && source == e
        },
    }
}

/// Whether encoding a frame leads from the state `before` to `after`, with the result
/// `r`. If the codec could not be set up anew, the frame is lost; otherwise the codec's
/// answer decides.
pub open spec fn encoded(
    before: EncoderState,
    frame: CapturedFrame,
    after: EncoderState,
    r: Result<Vec<EncodedFrame>, EncodeError>,
) -> bool {
    match r {
        Err(EncodeError::Create(e)) => before.reset_requested && after == tried(before, Some(e)),
        _ => encodes(before, frame, last_answer(after.codec), after, r),
    }
}

impl OpenH264Encoder {
    /// Sets up an encoder for frames of the given size and rate.
    pub fn new(width: u32, height: u32, fps: u32) -> (r: Result<Self, EncodeError>)
        ensures
            match r {
                Ok(e) => e@ == initial(width, height, fps),
                Err(e) => e is Create,
            },
    {
        let mut set_ups = EncoderSetUps::new();
        match create(&encoder_settings(fps), &mut set_ups) {
            Ok(codec) => Ok(
                OpenH264Encoder {
                    set_ups,
                    codec,
                    width,
                    height,
                    fps,
                    force_keyframe: false,
                    reset_requested: false,
                    frame_count: 0,
                },
            ),
            Err(e) => Err(EncodeError::Create(e)),
        }
    }

    /// Whether the encoder can take a frame.
    pub fn can_encode(&self, frame: &CapturedFrame) -> (b: bool)
        ensures
            b == takes(self@, *frame),
    {
        let width: u64 = frame.width as u64;
        let height: u64 = frame.height as u64;
        assert(width * height <= 0xffff_ffff * 0xffff_ffff) by (nonlinear_arith)
            requires
                width <= 0xffff_ffff,
                height <= 0xffff_ffff,
        ;
        let bytes: u128 = 4 * (width * height) as u128;
        frame.width % 2 == 0 && frame.height % 2 == 0 && bytes <= frame.cpu_buffer.len() as u128 + 1
            && self.fps > 0 && self.frame_count < 9_223_372_036_854_775
    }

    /// Takes the codec that it was tried to set up anew. Without one, the encoder keeps
    /// the codec that it has.
    pub fn renew(&mut self, codec: Result<EncoderCodec, openh264::Error>) -> (r: Result<
        (),
        EncodeError,
    >)
        ensures
            match codec {
                Ok(c) => r is Ok && final(self)@ == (EncoderState { codec: c@, ..old(self)@ }),
                Err(e) => r == Err::<(), EncodeError>(EncodeError::Create(e)) && final(self)@
                    == old(self)@,
            },
    {
        match codec {
            Ok(codec) => {
                self.codec = codec;
                Ok(())
            },
            Err(e) => Err(EncodeError::Create(e)),
        }
    }

    /// What the codec has to be told for a frame.
    pub fn prepare(&mut self, frame: &CapturedFrame) -> (call: CodecCall)
        requires
            takes(old(self)@, *frame),
        ensures
            final(self)@ == prepared(old(self)@),
            is_call(call, old(self)@, *frame),
            call.picture@.len() == 3 * (frame.width * frame.height) / 2,
    {
        self.frame_count += 1;
        let renew = if self.reset_requested {
            self.reset_requested = false;
            self.force_keyframe = false;
            Some(encoder_settings(self.fps))
        } else {
            None
        };
        CodecCall {
            renew,
            force_intra: self.force_keyframe,
            picture: bgra_to_yuv420p(
                frame.cpu_buffer.as_slice(),
                frame.width as usize,
                frame.height as usize,
            ),
        }
    }

    /// Takes the codec's answer for a frame.
    pub fn conclude(&mut self, frame: &CapturedFrame, raw: RawFrame) -> (frames: Vec<EncodedFrame>)
        requires
            timeable(old(self)@.frame_count as int, old(self)@.fps),
        ensures
            final(self)@ == concluded(old(self)@, raw),
            are_frames(frames@, old(self)@, *frame, raw),
    {
        let mut frames: Vec<EncodedFrame> = Vec::new();
        if raw.kind == RawFrameType::Skip || raw.kind == RawFrameType::Invalid {
            return frames;
        }
        self.force_keyframe = false;
        if raw.data.len() == 0 {
            return frames;
        }
        let keyframe = raw.kind == RawFrameType::Idr || raw.kind == RawFrameType::I;
        frames.push(
            EncodedFrame {
                nal_units: raw.data,
                frame_type: if keyframe {
                    FrameType::Keyframe
                } else {
                    FrameType::Delta
                },
                display_index: frame.display_index,
                pts: (self.frame_count * 1_000 / self.fps as u64) as i64,
                width: frame.width,
                height: frame.height,
            },
        );
        frames
    }
}

impl VideoEncoder for OpenH264Encoder {
    open spec fn state(&self) -> EncoderState {
        self@
    }

    /// Encodes a frame. Frames that are too large are refused.
    fn encode(&mut self, frame: &CapturedFrame) -> (r: Result<Vec<EncodedFrame>, EncodeError>)
        ensures
            oversized(frame.width as int, frame.height as int) && frame.width <= i32::MAX
                && frame.height <= i32::MAX ==> r is Err,
    {
        assert(frame.cpu_buffer@.len() == frame.cpu_buffer.len());
        let call = self.prepare(frame);
        if let Some(settings) = call.renew {
            let codec = create(&settings, &mut self.set_ups);
            match self.renew(codec) {
                Ok(()) => {},
                Err(e) => return Err(e),
            }
        }
        if call.force_intra {
            force_intra_frame(&mut self.codec);
        }
        match encode_picture(&mut self.codec, frame, call.picture) {
            Ok(raw) => Ok(self.conclude(frame, raw)),
            Err(e) => Err(EncodeError::Encode { frame: self.frame_count, source: e }),
        }
    }

    fn request_keyframe(&mut self) {
        self.reset_requested = true;
    }
}

/// Sets up the best encoder there is: the one in software.
pub fn create_best_encoder(width: u32, height: u32, fps: u32) -> (r: Result<
    Box<dyn VideoEncoder>,
    EncodeError,
>)
    ensures
        match r {
            Ok(e) => e.state() == initial(width, height, fps),
            Err(e) => e is Create,
        },
{
    match OpenH264Encoder::new(width, height, fps) {
        Ok(e) => Ok(Box::new(e)),
        Err(e) => Err(e),
    }
}

/// After a request for a frame that can be decoded on its own, the next frame is the
/// first one that a codec set up anew is given, unless none could be set up.
pub proof fn law_request_leads_to_a_fresh_codec(
    s: EncoderState,
    frame: CapturedFrame,
    after: EncoderState,
    r: Result<Vec<EncodedFrame>, EncodeError>,
)
    requires
        s.reset_requested,
        encoded(s, frame, after, r),
        !(r matches Err(EncodeError::Create(_))),
    ensures
        after.set_ups == s.set_ups.push(
            EncoderSetUp { settings: settings_for(s.fps), error: None },
        ),
        after.codec.settings == settings_for(s.fps),
        after.codec.calls.len() == 1,
        after.codec.calls[0] matches EncoderCall::Encode { picture, .. } && picture == i420(
            frame.cpu_buffer@,
            frame.width as int,
            frame.height as int,
        ),
        !after.reset_requested,
{
}

/// Without a request, a frame goes to the codec that stands, after all that it was given
/// before; and it is the frame's own picture that the codec is given.
pub proof fn law_frames_go_to_one_codec(
    s: EncoderState,
    frame: CapturedFrame,
    after: EncoderState,
    r: Result<Vec<EncodedFrame>, EncodeError>,
)
    requires
        !s.reset_requested,
        !s.force_keyframe,
        encoded(s, frame, after, r),
    ensures
        after.set_ups == s.set_ups,
        after.codec.settings == s.codec.settings,
        after.codec.calls.len() == s.codec.calls.len() + 1,
        after.codec.calls.drop_last() == s.codec.calls,
        after.codec.calls.last() matches EncoderCall::Encode { picture, width, height, .. }
            && picture == i420(frame.cpu_buffer@, frame.width as int, frame.height as int) && width
            == frame.width && height == frame.height,
{
    assert(after.codec.calls.drop_last() =~= s.codec.calls);
}

/// The bytes that the codec gives for a frame come out unchanged, as a keyframe exactly if
/// the codec says that the frame can be decoded on its own, with the size and the display
/// of the captured frame; what the codec skips does not come out.
pub proof fn law_the_codecs_bytes_come_out(
    s: EncoderState,
    frame: CapturedFrame,
    after: EncoderState,
    r: Result<Vec<EncodedFrame>, EncodeError>,
    raw: RawFrame,
)
    requires
        encoded(s, frame, after, r),
        !(r matches Err(EncodeError::Create(_))),
        last_answer(after.codec) == Ok::<RawFrame, openh264::Error>(raw),
    ensures
        r matches Ok(frames) && {
            &&& raw.kind == RawFrameType::Skip || raw.kind == RawFrameType::Invalid
                || raw.data@.len() == 0 <==> frames@.len() == 0
            &&& frames@.len() <= 1
            &&& forall|k: int|
                0 <= k < frames@.len() ==> {
                    &&& (#[trigger] frames@[k]).nal_units@ == raw.data@
                    &&& frames@[k].width == frame.width && frames@[k].height == frame.height
                    &&& frames@[k].display_index == frame.display_index
                    &&& frames@[k].frame_type == FrameType::Keyframe <==> (raw.kind
                        == RawFrameType::Idr || raw.kind == RawFrameType::I)
                }
        },
{
}

/// The time of a frame is its number at the frame rate, in milliseconds, rounded down:
/// frame `fps * n` stands at `n` seconds, and times do not run backwards.
pub proof fn law_times_follow_the_rate(
    s: EncoderState,
    frame: CapturedFrame,
    raw: RawFrame,
    frames: Seq<EncodedFrame>,
)
    requires
        are_frames(frames, s, frame, raw),
        frames.len() == 1,
        s.fps > 0,
    ensures
        frames[0].pts * s.fps <= 1_000 * s.frame_count < (frames[0].pts + 1) * s.fps,
{
    let n = s.frame_count * 1_000;
    let f = s.fps as int;
    vstd::arithmetic::div_mod::lemma_fundamental_div_mod(n, f);
    vstd::arithmetic::div_mod::lemma_mod_bound(n, f);
    assert(f * (n / f) == (n / f) * f) by (nonlinear_arith);
    assert((n / f + 1) * f == (n / f) * f + f) by (nonlinear_arith);
}

/// Frames are counted, one after the other, whatever comes of them, and a request for a
/// frame that can be decoded on its own is served once.
pub proof fn law_frames_are_counted(
    s: EncoderState,
    frame: CapturedFrame,
    after: EncoderState,
    r: Result<Vec<EncodedFrame>, EncodeError>,
)
    requires
        encoded(s, frame, after, r),
        s.frame_count < u64::MAX,
    ensures
        after.frame_count == s.frame_count + 1,
        !after.reset_requested,
        after.fps == s.fps,
        r matches Err(EncodeError::Encode { frame: n, .. }) ==> n == after.frame_count,
{
}

/// A codec is set up for the screen, at fifteen million bits a second and the given rate,
/// with one frame a second that can be decoded on its own, and in slices that fit a
/// datagram.
pub proof fn law_a_second_holds_one_group(fps: u32)
    ensures
        settings_for(fps).max_frame_rate == fps,
        settings_for(fps).group_len == settings_for(fps).max_frame_rate,
        settings_for(fps).bitrate_bps == 15_000_000,
        settings_for(fps).rate_control == RateControl::Bitrate,
        settings_for(fps).usage == Usage::Screen,
        settings_for(fps).max_slice_len == 1_200,
        settings_for(fps).threads == 4,
{
}

/// A new encoder has counted no frame, owes none that can be decoded on its own, and has
/// set up one codec, for its own rate; it keeps its size and its rate.
pub proof fn law_a_new_encoder_owes_nothing(width: u32, height: u32, fps: u32)
    ensures
        ({
            let s = initial(width, height, fps);
            &&& s.frame_count == 0
            &&& !s.reset_requested && !s.force_keyframe
            &&& s.set_ups.len() == 1 && s.set_ups[0].error is None
            &&& s.set_ups[0].settings == s.codec.settings
            &&& s.codec.settings.max_frame_rate == fps
            &&& s.codec.calls.len() == 0
            &&& s.width == width && s.height == height && s.fps == fps
        }),
{
}

/// A frame that has to be forced is asked of the codec before the picture is given, again
/// and again until the codec makes one, and no longer.
pub proof fn law_a_forced_frame_is_forced_once(
    s: EncoderState,
    frame: CapturedFrame,
    after: EncoderState,
    r: Result<Vec<EncodedFrame>, EncodeError>,
)
    requires
        !s.reset_requested,
        encoded(s, frame, after, r),
    ensures
        s.force_keyframe ==> after.codec.calls == s.codec.calls.push(EncoderCall::ForceIntra).push(
            after.codec.calls.last(),
        ),
        !s.force_keyframe ==> !after.force_keyframe,
        s.force_keyframe ==> (after.force_keyframe <==> (match last_answer(after.codec) {
            Ok(raw) => raw.kind == RawFrameType::Skip || raw.kind == RawFrameType::Invalid,
            Err(_) => true,
        })),
{
    if s.force_keyframe {
        assert(after.codec.calls =~= s.codec.calls.push(EncoderCall::ForceIntra).push(
            after.codec.calls.last(),
        ));
    }
}

/// A captured frame with even sides and four bytes for every pixel is taken, for more than
/// a million years at sixty frames a second.
pub proof fn law_whole_frames_are_taken(s: EncoderState, frame: CapturedFrame)
    requires
        s.fps > 0,
        s.frame_count < 9_000_000_000_000_000,
    ensures
        frame.width % 2 == 0 && frame.height % 2 == 0 && frame.cpu_buffer@.len() >= 4 * (frame.width
            * frame.height) ==> takes(s, frame),
        frame.width % 2 == 1 || frame.height % 2 == 1 ==> !takes(s, frame),
{
}

} // verus!
