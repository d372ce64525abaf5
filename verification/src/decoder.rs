//! H.264 decoding of received frames.

use crate::color::{in_block, law_chroma_colours_its_block, rgb_of, YuvPicture};
use crate::message::FrameType;
use crate::nal::{self, finds_idr};
use openh264::decoder::{Decoder, DecoderConfig};
use openh264::formats::YUVSource;
use openh264::OpenH264API;
use vstd::prelude::*;

verus! {

/// `openh264::decoder::Decoder`.
#[verifier::external_type_specification]
#[verifier::external_body]
pub struct ExDecoder(openh264::decoder::Decoder);

/// A frame as the decoder puts it out: three bytes per pixel, red first.
#[derive(Debug, Clone)]
pub struct DecodedFrame {
    pub rgb_data: Vec<u8>,
    pub width: u32,
    pub height: u32,
    pub display_index: u32,
    pub frame_type: FrameType,
}

/// Why a frame could not be decoded.
#[derive(Debug)]
pub enum DecodeError {
    /// The codec could not be set up.
    Create(openh264::Error),
    /// The codec refused the data.
    Decode(openh264::Error),
    /// The codec could not give out what it still held.
    Flush(openh264::Error),
    /// The codec gave out a picture that lacks pixels.
    BadPicture,
}

/// Where a decoder stands.
#[derive(Debug, Clone, Copy, PartialEq, Eq, Structural)]
pub enum DecoderPhase {
    /// No picture has come out yet.
    Waiting,
    /// A picture has come out, so frames that build on others can be decoded.
    Ready,
    /// The last frame could not be decoded: the codec has to be set up anew.
    Failed,
}

/// What is done with data.
#[derive(Debug, Clone, Copy, PartialEq, Eq, Structural)]
pub enum DecodePlan {
    /// Drop it.
    Drop,
    /// Hand it to the codec, which has to be set up anew first if `renew`.
    Feed { keyframe: bool, renew: bool },
}

/// A call to the codec.
pub enum DecoderCall {
    /// It was given data, and answered.
    Decode { data: Seq<u8>, answer: Result<Option<YuvPicture>, openh264::Error> },
    /// It was asked for what it still held, and answered.
    Flush { answer: Result<Vec<YuvPicture>, openh264::Error> },
}

/// The codec, with a record of the calls since it was set up.
pub struct DecoderCodec {
    decoder: Decoder,
    calls: Ghost<Seq<DecoderCall>>,
}

impl View for DecoderCodec {
    type V = Seq<DecoderCall>;

    closed spec fn view(&self) -> Seq<DecoderCall> {
        self.calls@
    }
}

/// A record of the attempts to set a codec up: the error of each that failed.
pub struct DecoderSetUps {
    record: Ghost<Seq<Option<openh264::Error>>>,
}

impl View for DecoderSetUps {
    type V = Seq<Option<openh264::Error>>;

    closed spec fn view(&self) -> Seq<Option<openh264::Error>> {
        self.record@
    }
}

impl DecoderSetUps {
    /// A record without an attempt.
    pub fn new() -> (s: Self)
        ensures
            s@ == Seq::<Option<openh264::Error>>::empty(),
    {
        DecoderSetUps { record: Ghost(Seq::empty()) }
    }
}

/// What a decoder did with its codecs: the attempts to set one up, and the calls to the
/// one that stands.
pub struct DecoderRecord {
    pub set_ups: Seq<Option<openh264::Error>>,
    pub calls: Seq<DecoderCall>,
}

/// The error of an attempt to set a codec up, if it failed.
pub open spec fn refusal(r: Result<DecoderCodec, openh264::Error>) -> Option<openh264::Error> {
    match r {
        Ok(_) => None,
        Err(e) => Some(e),
    }
}

/// `openh264::decoder::Decoder::with_api_config` with the default configuration. The
/// attempt is added to the record of attempts, with its error; the codec's own record
/// begins with no call. Whether the call succeeds is left open.
#[verifier::external_body]
fn create(set_ups: &mut DecoderSetUps) -> (r: Result<DecoderCodec, openh264::Error>)
    ensures
        final(set_ups)@ == old(set_ups)@.push(refusal(r)),
        r matches Ok(codec) ==> codec@ == Seq::<DecoderCall>::empty(),
{
    let decoder = Decoder::with_api_config(OpenH264API::from_source(), DecoderConfig::default())?;
    Ok(DecoderCodec { decoder, calls: Ghost(Seq::empty()) })
}

/// `openh264::decoder::Decoder::decode`, with the planes of the picture copied out. The
/// call is added to the record, with its answer. What comes of the data depends on
/// what the decoder has seen, and is left open.
#[verifier::external_body]
fn decode_data(codec: &mut DecoderCodec, data: &[u8]) -> (r: Result<
    Option<YuvPicture>,
    openh264::Error,
>)
    ensures
        final(codec)@ == old(codec)@.push((DecoderCall::Decode { data: data@, answer: r })),
{
    Ok(codec.decoder.decode(data)?.map(|p| YuvPicture {
        y: p.y().to_vec(),
        u: p.u().to_vec(),
        v: p.v().to_vec(),
        width: p.dimensions().0,
        height: p.dimensions().1,
        y_stride: p.strides().0,
        uv_stride: p.strides().1,
    }))
}

/// `openh264::decoder::Decoder::flush_remaining`, with the planes of each picture
/// copied out. The call is added to the record, with its answer. Which pictures the
/// decoder still holds is left open.
#[verifier::external_body]
fn flush_pictures(codec: &mut DecoderCodec) -> (r: Result<Vec<YuvPicture>, openh264::Error>)
    ensures
        final(codec)@ == old(codec)@.push((DecoderCall::Flush { answer: r })),
{
    Ok(codec.decoder.flush_remaining()?.iter().map(|p| YuvPicture {
        y: p.y().to_vec(),
        u: p.u().to_vec(),
        v: p.v().to_vec(),
        width: p.dimensions().0,
        height: p.dimensions().1,
        y_stride: p.strides().0,
        uv_stride: p.strides().1,
    }).collect())
}

/// Whether a decoder stands as it does when it is new.
pub open spec fn is_new(phase: DecoderPhase, history: Seq<Decoding>) -> bool {
    phase == DecoderPhase::Waiting && history == Seq::<Decoding>::empty()
}

/// Whether data is handed to the codec. Before the first picture, and after a
/// failure, only data with a frame that can be decoded on its own is.
pub open spec fn is_fed(phase: DecoderPhase, data: Seq<u8>) -> bool {
    data.len() > 0 && (phase == DecoderPhase::Ready || finds_idr(data, 0))
}

/// Where the decoder stands when the codec is called: after a failure, the codec
/// was set up anew.
pub open spec fn renewed(phase: DecoderPhase) -> DecoderPhase {
    if phase == DecoderPhase::Failed {
        DecoderPhase::Waiting
    } else {
        phase
    }
}

/// Whether `frame` shows a picture of the main display.
pub open spec fn shows(frame: DecodedFrame, picture: YuvPicture, keyframe: bool) -> bool {
    &&& picture.displayable()
    &&& frame.rgb_data@ == picture.rgb()
    &&& frame.width == picture.width as u32
    &&& frame.height == picture.height as u32
    &&& frame.display_index == 0
    &&& frame.frame_type == if keyframe {
        FrameType::Keyframe
    } else {
        FrameType::Delta
    }
}

/// Whether the codec's answer `picture` leads to `frames` and to the phase `after`.
pub open spec fn decodes(
    before: DecoderPhase,
    keyframe: bool,
    picture: Option<YuvPicture>,
    after: DecoderPhase,
    frames: Seq<DecodedFrame>,
) -> bool {
    match picture {
        Some(p) => after == DecoderPhase::Ready && frames.len() == 1 && shows(
            frames[0],
            p,
            keyframe,
        ),
        None => after == before && frames.len() == 0,
    }
}

/// Whether some answer of the codec leads to `frames` and to the phase `after`.
pub open spec fn may_decode(
    before: DecoderPhase,
    keyframe: bool,
    after: DecoderPhase,
    frames: Seq<DecodedFrame>,
) -> bool {
    exists|picture: Option<YuvPicture>| #[trigger]
        decodes(before, keyframe, picture, after, frames)
}

/// Whether `frames` shows `pictures`, one by one.
pub open spec fn show_all(
    frames: Seq<DecodedFrame>,
    pictures: Seq<YuvPicture>,
    keyframe: bool,
) -> bool {
    &&& frames.len() == pictures.len()
    &&& forall|i: int|
        0 <= i < frames.len() ==> shows(#[trigger] frames[i], pictures[i], keyframe)
}

/// Whether `frames` shows some pictures that build on others.
pub open spec fn may_flush(frames: Seq<DecodedFrame>) -> bool {
    exists|pictures: Seq<YuvPicture>| #[trigger] show_all(frames, pictures, false)
}

/// Whether a picture that the codec gave, or did not give, leads from the phase `before`
/// to `after`, with the result `r`: a picture that lacks samples is an error.
pub open spec fn concludes(
    before: DecoderPhase,
    keyframe: bool,
    picture: Option<YuvPicture>,
    after: DecoderPhase,
    r: Result<Vec<DecodedFrame>, DecodeError>,
) -> bool {
    match r {
        Ok(frames) => decodes(before, keyframe, picture, after, frames@),
        Err(e) => {
            &&& e is BadPicture
            &&& picture matches Some(p) && !p.displayable()
            &&& after == DecoderPhase::Failed
        },
    }
}

/// Whether `r` is what a row of pictures which build on others amounts to: all their
/// frames, or an error if one of them lacks samples.
pub open spec fn converts(
    pictures: Seq<YuvPicture>,
    r: Result<Vec<DecodedFrame>, DecodeError>,
) -> bool {
    match r {
        Ok(frames) => show_all(frames@, pictures, false),
        Err(e) => e is BadPicture && exists|i: int|
            0 <= i < pictures.len() && !(#[trigger] pictures[i]).displayable(),
    }
}

/// The record when the codec is given data: after a failure the codec was set up anew.
pub open spec fn standing(phase: DecoderPhase, record: DecoderRecord) -> DecoderRecord {
    if phase == DecoderPhase::Failed {
        DecoderRecord { set_ups: record.set_ups.push(None), calls: Seq::empty() }
    } else {
        record
    }
}

/// The record after one more call.
pub open spec fn called(record: DecoderRecord, call: DecoderCall) -> DecoderRecord {
    DecoderRecord { calls: record.calls.push(call), ..record }
}

/// Whether the codec was given `data`, and its answer leads from the phase `before` to
/// `after`, with the result `r`.
pub open spec fn decodes_by(
    before: DecoderPhase,
    record: DecoderRecord,
    data: Seq<u8>,
    answer: Result<Option<YuvPicture>, openh264::Error>,
    after: DecoderPhase,
    record_after: DecoderRecord,
    r: Result<Vec<DecodedFrame>, DecodeError>,
) -> bool {
    &&& record_after == called(standing(before, record), DecoderCall::Decode { data, answer })
    &&& match answer {
        Ok(picture) => concludes(renewed(before), finds_idr(data, 0), picture, after, r),
        Err(e) => {
            &&& after == DecoderPhase::Failed
            &&& r matches Err(DecodeError::Decode(f)) && f == e
        },
    }
}

/// What decoding `data` gives, and what it does to the phase and to the record: data
/// that is dropped is not seen by the codec; if none could be set up anew, the data is
/// lost; otherwise the codec is given the data, and its answer decides.
pub open spec fn gives(
    before: DecoderPhase,
    record: DecoderRecord,
    data: Seq<u8>,
    after: DecoderPhase,
    record_after: DecoderRecord,
    r: Result<Vec<DecodedFrame>, DecodeError>,
) -> bool {
    if !is_fed(before, data) {
        &&& r matches Ok(frames) && frames@.len() == 0
        &&& after == before
        &&& record_after == record
    } else if let Err(DecodeError::Create(e)) = r {
        &&& before == DecoderPhase::Failed
        &&& after == before
        &&& record_after == (DecoderRecord { set_ups: record.set_ups.push(Some(e)), ..record })
    } else {
        let answer = record_after.calls.last()->Decode_answer;
        decodes_by(before, record, data, answer, after, record_after, r)
    }
}

/// What asking the codec for what it still holds gives, and what it does to the record.
pub open spec fn flushes(
    record: DecoderRecord,
    record_after: DecoderRecord,
    r: Result<Vec<DecodedFrame>, DecodeError>,
) -> bool {
    let answer = record_after.calls.last()->Flush_answer;
    &&& record_after == called(record, DecoderCall::Flush { answer })
    &&& match answer {
        Ok(pictures) => converts(pictures@, r),
        Err(e) => r matches Err(DecodeError::Flush(f)) && f == e,
    }
}

/// A request to decode, and what was answered.
pub struct Decoding {
    pub data: Seq<u8>,
    pub answer: Result<Vec<DecodedFrame>, DecodeError>,
}

/// Decodes frames; software and hardware decoders have this in common.
pub trait VideoDecoder: Send {
    /// Where the decoder stands.
    spec fn phase(&self) -> DecoderPhase;

    /// What the decoder was asked to decode, and what it answered.
    spec fn history(&self) -> Seq<Decoding>;

    /// Whether `r` can come of asking the decoder, as it is, for what it still holds.
    spec fn may_give_out(&self, r: Result<Vec<DecodedFrame>, DecodeError>) -> bool;

    /// Decodes the units of a frame. No frame comes out of nothing, of a frame that
    /// builds on others before the first picture or after a failure, and when the
    /// codec needs more data.
    fn decode(&mut self, nal_units: &[u8]) -> (r: Result<Vec<DecodedFrame>, DecodeError>)
        ensures
            final(self).history() == old(self).history().push(
                (Decoding { data: nal_units@, answer: r }),
            ),
            !is_fed(old(self).phase(), nal_units@) ==> {
                &&& r matches Ok(frames) && frames@.len() == 0
                &&& final(self).phase() == old(self).phase()
            },
            is_fed(old(self).phase(), nal_units@) ==> match r {
                Ok(frames) => may_decode(
                    renewed(old(self).phase()),
                    finds_idr(nal_units@, 0),
                    final(self).phase(),
                    frames@,
                ),
                Err(DecodeError::Create(_)) => {
                    &&& old(self).phase() == DecoderPhase::Failed
                    &&& final(self).phase() == DecoderPhase::Failed
                },
                Err(DecodeError::Decode(_)) | Err(DecodeError::BadPicture) => final(self).phase()
                    == DecoderPhase::Failed,
                Err(DecodeError::Flush(_)) => false,
            },
    ;

    /// Gives out the frames that the codec still holds.
    fn flush(&mut self) -> (r: Result<Vec<DecodedFrame>, DecodeError>)
        ensures
            old(self).may_give_out(r),
            final(self).history() == old(self).history(),
            final(self).phase() == old(self).phase(),
            match r {
                Ok(frames) => may_flush(frames@),
                Err(e) => e is Flush || e is BadPicture,
            },
    ;
}

/// Decodes in software.
pub struct OpenH264Decoder {
    set_ups: DecoderSetUps,
    codec: DecoderCodec,
    phase: DecoderPhase,
    history: Ghost<Seq<Decoding>>,
}

impl OpenH264Decoder {
    /// Sets up a decoder.
    pub fn new() -> (r: Result<Self, DecodeError>)
        ensures
            match r {
                Ok(d) => {
                    &&& is_new(d.phase(), d.history())
                    &&& d.record().set_ups == seq![None::<openh264::Error>]
                    &&& d.record().calls == Seq::<DecoderCall>::empty()
                },
                Err(e) => e is Create,
            },
    {
        let mut set_ups = DecoderSetUps::new();
        let codec = create(&mut set_ups);
        let r = Self::set_up(codec, set_ups);
        assert(r matches Ok(d) ==> d.record().set_ups =~= seq![None::<openh264::Error>]);
        r
    }

    /// What the decoder did with its codecs.
    pub closed spec fn record(&self) -> DecoderRecord {
        DecoderRecord { set_ups: self.set_ups@, calls: self.codec@ }
    }

    /// The decoder of a codec, if the codec could be set up at the last of the attempts.
    pub fn set_up(codec: Result<DecoderCodec, openh264::Error>, set_ups: DecoderSetUps) -> (r:
        Result<Self, DecodeError>)
        ensures
            match codec {
                Ok(c) => r matches Ok(d) && d.record() == (DecoderRecord {
                    set_ups: set_ups@,
                    calls: c@,
                }) && is_new(d.phase(), d.history()),
                Err(e) => r matches Err(DecodeError::Create(f)) && f == e,
            },
    {
        match codec {
            Ok(codec) => Ok(
                OpenH264Decoder {
                    set_ups,
                    codec,
                    phase: DecoderPhase::Waiting,
                    history: Ghost(Seq::empty()),
                },
            ),
            Err(e) => Err(DecodeError::Create(e)),
        }
    }

    /// Whether data holds a frame that can be decoded on its own.
    pub fn contains_idr(data: &[u8]) -> (found: bool)
        ensures
            found == finds_idr(data@, 0),
    {
        nal::contains_idr(data)
    }

    /// What is done with data.
    pub fn plan(&self, nal_units: &[u8]) -> (plan: DecodePlan)
        ensures
            plan == if is_fed(self.phase(), nal_units@) {
                DecodePlan::Feed {
                    keyframe: finds_idr(nal_units@, 0),
                    renew: self.phase() == DecoderPhase::Failed,
                }
            } else {
                DecodePlan::Drop
            },
    {
        if nal_units.len() == 0 {
            return DecodePlan::Drop;
        }
        let keyframe = nal::contains_idr(nal_units);
        if self.phase != DecoderPhase::Ready && !keyframe {
            DecodePlan::Drop
        } else {
            DecodePlan::Feed { keyframe, renew: self.phase == DecoderPhase::Failed }
        }
    }

    /// The frame that shows a picture.
    pub fn convert_yuv(picture: &YuvPicture, keyframe: bool) -> (frame: DecodedFrame)
        requires
            picture.displayable(),
        ensures
            shows(frame, *picture, keyframe),
    {
        DecodedFrame {
            rgb_data: picture.to_rgb(),
            width: #[verifier::truncate] (picture.width as u32),
            height: #[verifier::truncate] (picture.height as u32),
            display_index: 0,
            frame_type: if keyframe {
                FrameType::Keyframe
            } else {
                FrameType::Delta
            },
        }
    }

    /// Takes the codec's answer for a frame.
    pub fn conclude(&mut self, keyframe: bool, picture: Option<YuvPicture>) -> (r: Result<
        Vec<DecodedFrame>,
        DecodeError,
    >)
        ensures
            concludes(old(self).phase(), keyframe, picture, final(self).phase(), r),
            final(self).record() == old(self).record(),
            final(self).history() == old(self).history(),
    {
        let mut frames: Vec<DecodedFrame> = Vec::new();
        match picture {
            Some(p) => {
                if !p.is_displayable() {
                    self.phase = DecoderPhase::Failed;
                    return Err(DecodeError::BadPicture);
                }
                self.phase = DecoderPhase::Ready;
                frames.push(Self::convert_yuv(&p, keyframe));
            },
            None => {},
        }
        Ok(frames)
    }

    /// The frames that show a row of pictures which build on others.
    pub fn convert_all(pictures: &Vec<YuvPicture>) -> (r: Result<Vec<DecodedFrame>, DecodeError>)
        ensures
            converts(pictures@, r),
    {
        let mut frames: Vec<DecodedFrame> = Vec::new();
        let mut i: usize = 0;
        while i < pictures.len()
            invariant
                0 <= i <= pictures@.len(),
                frames@.len() == i,
                forall|j: int|
                    0 <= j < i ==> shows(#[trigger] frames@[j], pictures@[j], false),
            decreases pictures@.len() - i,
        {
            if !pictures[i].is_displayable() {
                return Err(DecodeError::BadPicture);
            }
            frames.push(Self::convert_yuv(&pictures[i], false));
            i += 1;
        }
        Ok(frames)
    }
}

impl OpenH264Decoder {
    /// Takes the codec that it was tried to set up anew. Without one, the decoder stays
    /// as it is.
    pub fn renew(&mut self, codec: Result<DecoderCodec, openh264::Error>) -> (r: Result<
        (),
        DecodeError,
    >)
        ensures
            final(self).history() == old(self).history(),
            match codec {
                Ok(c) => {
                    &&& r is Ok
                    &&& final(self).record() == (DecoderRecord { calls: c@, ..old(self).record() })
                    &&& final(self).phase() == DecoderPhase::Waiting
                },
                Err(e) => {
                    &&& r == Err::<(), DecodeError>(DecodeError::Create(e))
                    &&& final(self).record() == old(self).record()
                    &&& final(self).phase() == old(self).phase()
                },
            },
    {
        match codec {
            Ok(codec) => {
                self.codec = codec;
                self.phase = DecoderPhase::Waiting;
                Ok(())
            },
            Err(e) => Err(DecodeError::Create(e)),
        }
    }

    /// Decodes data, with a codec that is set up anew after a failure.
    fn attempt(&mut self, nal_units: &[u8]) -> (r: Result<Vec<DecodedFrame>, DecodeError>)
        ensures
            gives(
                old(self).phase(),
                old(self).record(),
                nal_units@,
                final(self).phase(),
                final(self).record(),
                r,
            ),
            final(self).history() == old(self).history(),
    {
        let (keyframe, renew) = match self.plan(nal_units) {
            DecodePlan::Drop => return Ok(Vec::new()),
            DecodePlan::Feed { keyframe, renew } => (keyframe, renew),
        };
        if renew {
            let codec = create(&mut self.set_ups);
            match self.renew(codec) {
                Ok(()) => {},
                Err(e) => return Err(e),
            }
        }
        match decode_data(&mut self.codec, nal_units) {
            Ok(picture) => self.conclude(keyframe, picture),
            Err(e) => {
                self.phase = DecoderPhase::Failed;
                Err(DecodeError::Decode(e))
            },
        }
    }
}

impl VideoDecoder for OpenH264Decoder {
    closed spec fn phase(&self) -> DecoderPhase {
        self.phase
    }

    closed spec fn history(&self) -> Seq<Decoding> {
        self.history@
    }

    open spec fn may_give_out(&self, r: Result<Vec<DecodedFrame>, DecodeError>) -> bool {
        match r {
            Ok(frames) => may_flush(frames@),
            Err(e) => e is Flush || e is BadPicture,
        }
    }

    fn decode(&mut self, nal_units: &[u8]) -> (r: Result<Vec<DecodedFrame>, DecodeError>)
        ensures
            gives(
                old(self).phase(),
                old(self).record(),
                nal_units@,
                final(self).phase(),
                final(self).record(),
                r,
            ),
    {
        let r = self.attempt(nal_units);
        self.history = Ghost(self.history@.push(Decoding { data: nal_units@, answer: r }));
        r
    }

    fn flush(&mut self) -> (r: Result<Vec<DecodedFrame>, DecodeError>)
        ensures
            flushes(old(self).record(), final(self).record(), r),
    {
        match flush_pictures(&mut self.codec) {
            Ok(pictures) => {
                let r = Self::convert_all(&pictures);
                assert(r is Ok ==> show_all(r->Ok_0@, pictures@, false));
                r
            },
            Err(e) => Err(DecodeError::Flush(e)),
        }
    }
}

/// Sets up the best decoder there is: the one in software.
pub fn create_best_decoder() -> (r: Result<Box<dyn VideoDecoder>, DecodeError>)
    ensures
        match r {
            Ok(d) => is_new(d.phase(), d.history()),
            Err(e) => e is Create,
        },
{
    match OpenH264Decoder::new() {
        Ok(d) => Ok(Box::new(d)),
        Err(e) => Err(e),
    }
}

/// Until the first picture, and after a failure, frames that build on others are
/// dropped; after a failure, a frame that can be decoded on its own goes to a codec
/// that is set up anew.
pub proof fn law_recovery_waits_for_a_keyframe(phase: DecoderPhase, data: Seq<u8>)
    requires
        phase != DecoderPhase::Ready,
    ensures
        !finds_idr(data, 0) ==> !is_fed(phase, data),
        finds_idr(data, 0) ==> is_fed(phase, data) && renewed(phase) == DecoderPhase::Waiting,
{
    if data.len() == 0 {
        assert(!finds_idr(data, 0));
    }
}

/// A decoder that has put a picture out is fed everything but nothing.
pub proof fn law_a_ready_decoder_is_fed(data: Seq<u8>)
    ensures
        is_fed(DecoderPhase::Ready, data) <==> data.len() > 0,
        renewed(DecoderPhase::Ready) == DecoderPhase::Ready,
{
}

/// A frame shows its picture pixel by pixel: it has the picture's width and height, and in
/// row `row` and column `col` it has the luma of that pixel, with the chroma of the block
/// of two by two pixels in row `i` and column `j` of the blocks, in which the pixel lies.
pub proof fn law_frame_shows_its_picture(
    frame: DecodedFrame,
    picture: YuvPicture,
    keyframe: bool,
    i: int,
    j: int,
    row: int,
    col: int,
)
    requires
        shows(frame, picture, keyframe),
        picture.width <= u32::MAX,
        picture.height <= u32::MAX,
        0 <= row < frame.height,
        0 <= col < frame.width,
        in_block(i, j, row, col),
    ensures
        frame.width == picture.width,
        frame.height == picture.height,
        frame.rgb_data@.len() == 3 * (frame.width * frame.height),
        frame.frame_type == FrameType::Keyframe <==> keyframe,
        frame.display_index == 0,
        ({
            let at = 3 * (row * frame.width + col);
            let shown = rgb_of(
                picture.y@[row * picture.y_stride + col],
                picture.u@[i * picture.uv_stride + j],
                picture.v@[i * picture.uv_stride + j],
            );
            &&& frame.rgb_data@[at] == shown.0
            &&& frame.rgb_data@[at + 1] == shown.1
            &&& frame.rgb_data@[at + 2] == shown.2
        }),
{
    assert(frame.width == picture.width && frame.height == picture.height);
    law_chroma_colours_its_block(picture, i, j, row, col);
    assert(0 <= picture.width * picture.height) by (nonlinear_arith)
        requires
            0 <= picture.width,
            0 <= picture.height,
    ;
}

/// After data that the codec refused, data without a frame that can be decoded on its own
/// gives nothing and is not seen by the codec; data with such a frame is the first that a
/// codec set up anew is given, unless none could be set up.
pub proof fn law_recovery_after_a_refusal(
    p0: DecoderPhase,
    r0: DecoderRecord,
    refused: Seq<u8>,
    p1: DecoderPhase,
    r1: DecoderRecord,
    first: Result<Vec<DecodedFrame>, DecodeError>,
    data: Seq<u8>,
    p2: DecoderPhase,
    r2: DecoderRecord,
    second: Result<Vec<DecodedFrame>, DecodeError>,
)
    requires
        gives(p0, r0, refused, p1, r1, first),
        first is Err,
        gives(p1, r1, data, p2, r2, second),
    ensures
        !finds_idr(data, 0) ==> (second matches Ok(frames) && frames@.len() == 0) && r2 == r1,
        finds_idr(data, 0) ==> {
            ||| second matches Err(DecodeError::Create(_))
            ||| r2.calls.len() == 1 && (r2.calls[0] matches DecoderCall::Decode { data: d, .. } && d
                == data) && r2.set_ups.len() == r1.set_ups.len() + 1
        },
{
    law_recovery_waits_for_a_keyframe(DecoderPhase::Failed, data);
}

/// A picture that the codec gives for data comes out as one frame, which counts as a
/// keyframe exactly if the data holds a frame that can be decoded on its own; from then
/// on the decoder is ready.
pub proof fn law_a_picture_comes_out(
    before: DecoderPhase,
    record: DecoderRecord,
    data: Seq<u8>,
    after: DecoderPhase,
    record_after: DecoderRecord,
    r: Result<Vec<DecodedFrame>, DecodeError>,
    picture: YuvPicture,
)
    requires
        gives(before, record, data, after, record_after, r),
        is_fed(before, data),
        record_after.calls.len() > 0,
        record_after.calls.last() == (DecoderCall::Decode { data, answer: Ok(Some(picture)) }),
        !(r matches Err(DecodeError::Create(_))),
        picture.displayable(),
    ensures
        r matches Ok(frames) && frames@.len() == 1 && shows(
            frames@[0],
            picture,
            finds_idr(data, 0),
        ),
        after == DecoderPhase::Ready,
{
}

/// A new decoder has been given nothing, and is fed nothing before a frame that can be
/// decoded on its own.
pub proof fn law_a_new_decoder_waits(phase: DecoderPhase, history: Seq<Decoding>, data: Seq<u8>)
    requires
        is_new(phase, history),
    ensures
        history.len() == 0,
        is_fed(phase, data) <==> data.len() > 0 && finds_idr(data, 0),
{
}

/// Every picture that the codec still holds comes out when it is flushed, in its order and
/// as a frame that needs others; if the codec refuses, that is what comes out, and nothing
/// else is asked of the codec.
pub proof fn law_held_pictures_come_out(
    record: DecoderRecord,
    record_after: DecoderRecord,
    r: Result<Vec<DecodedFrame>, DecodeError>,
    i: int,
)
    requires
        flushes(record, record_after, r),
    ensures
        record_after.calls.len() == record.calls.len() + 1,
        record_after.set_ups == record.set_ups,
        record_after.calls.last() matches DecoderCall::Flush { answer } && {
            &&& answer matches Err(e) ==> r == Err::<Vec<DecodedFrame>, DecodeError>(
                DecodeError::Flush(e),
            )
            &&& answer matches Ok(pictures) ==> {
                &&& r matches Ok(frames) ==> frames@.len() == pictures@.len()
                &&& r matches Ok(frames) ==> 0 <= i < frames@.len() ==> {
                    &&& frames@[i].rgb_data@ == pictures@[i].rgb()
                    &&& frames@[i].frame_type == FrameType::Delta
                }
                &&& r is Err ==> exists|k: int|
                    0 <= k < pictures@.len() && !(#[trigger] pictures@[k]).displayable()
            }
        },
{
}

/// Data that the codec is not fed changes nothing. Data that it is fed is added to what it
/// was given before, or is the first that a codec set up anew is given; a codec that could
/// not be set up is noted with the reason, and the one that stands is left as it is.
pub proof fn law_the_record_follows_the_data(
    before: DecoderPhase,
    record: DecoderRecord,
    data: Seq<u8>,
    after: DecoderPhase,
    record_after: DecoderRecord,
    r: Result<Vec<DecodedFrame>, DecodeError>,
)
    requires
        gives(before, record, data, after, record_after, r),
    ensures
        !is_fed(before, data) ==> after == before && record_after == record && (r matches Ok(frames)
            && frames@.len() == 0),
        is_fed(before, data) && before != DecoderPhase::Failed ==> {
            &&& record_after.set_ups == record.set_ups
            &&& record_after.calls.len() == record.calls.len() + 1
            &&& record_after.calls.drop_last() == record.calls
            &&& record_after.calls.last() matches DecoderCall::Decode { data: d, .. } && d == data
        },
        is_fed(before, data) && before == DecoderPhase::Failed ==> {
            &&& record_after.set_ups.len() == record.set_ups.len() + 1
            &&& r matches Err(DecodeError::Create(e)) ==> record_after.calls == record.calls
                && record_after.set_ups.last() == Some(e) && after == before
            &&& !(r matches Err(DecodeError::Create(_))) ==> record_after.set_ups.last()
                == None::<openh264::Error> && record_after.calls.len() == 1
        },
        is_fed(before, data) && r is Err ==> after == DecoderPhase::Failed,
{
    if is_fed(before, data) && before != DecoderPhase::Failed {
        assert(record_after.calls.drop_last() =~= record.calls);
    }
}

/// Data for which the codec gives no picture gives no frame; the decoder is then as ready
/// as it was, or waits if it had failed before.
pub proof fn law_no_picture_gives_no_frame(
    before: DecoderPhase,
    record: DecoderRecord,
    data: Seq<u8>,
    after: DecoderPhase,
    record_after: DecoderRecord,
    r: Result<Vec<DecodedFrame>, DecodeError>,
)
    requires
        gives(before, record, data, after, record_after, r),
        is_fed(before, data),
        record_after.calls.len() > 0,
        record_after.calls.last() == (DecoderCall::Decode { data, answer: Ok(None) }),
        !(r matches Err(DecodeError::Create(_))),
    ensures
        r matches Ok(frames) && frames@.len() == 0,
        after == DecoderPhase::Ready <==> before == DecoderPhase::Ready,
        after != DecoderPhase::Failed,
{
}

} // verus!
