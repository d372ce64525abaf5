//! The service that serves this desktop: when it encodes, and what it does with
//! the messages that reach it.

use crate::capture::CapturedFrame;
use crate::encoder::{
    encoded, initial, takes, EncodeError, EncodedFrame, EncoderState, OpenH264Encoder, VideoEncoder,
};
use crate::input::{
    button_record, key_record, wheel_record, DesktopInput, InputBackend, InputRecord,
};
use crate::message::{KeyEvent, Message, MouseButton, MouseEvent, MouseEventType, Pong, Type};
use crate::net::build_pong;
use vstd::prelude::*;

verus! {

pub const ENCODE_WIDTH: u32 = 1_920;

pub const ENCODE_HEIGHT: u32 = 1_080;

pub const ENCODE_FPS: u32 = 60;

/// What reaches the encoding task.
#[derive(Debug)]
pub enum EncodeEvent {
    /// The viewer wants a frame that can be decoded on its own.
    KeyframeWanted,
    /// A frame was captured.
    Captured(CapturedFrame),
    /// No frame will be captured any more.
    CaptureEnded,
    /// Nothing will come any more at all.
    AllEnded,
}

/// What the encoding task does after an event.
#[derive(Debug)]
pub enum EncodeStep {
    /// Go on, with nothing to send.
    Continue,
    /// Send the frames.
    Send(Vec<EncodedFrame>),
    /// Go on without the frame, which could not be encoded.
    FrameFailed(EncodeError),
    /// Stop.
    Stop,
    /// Stop, because there is no encoder.
    NoEncoder(EncodeError),
}

/// The task that encodes captured frames. It has no encoder until the first viewer
/// asks for a frame.
pub struct EncodeTask {
    encoder: Option<OpenH264Encoder>,
}

impl View for EncodeTask {
    type V = Option<EncoderState>;

    closed spec fn view(&self) -> Option<EncoderState> {
        match self.encoder {
            Some(e) => Some(e@),
            None => None,
        }
    }
}

/// What an event does to the task's encoder, and what comes of it.
pub open spec fn encode_steps(
    before: Option<EncoderState>,
    event: EncodeEvent,
    after: Option<EncoderState>,
    step: EncodeStep,
) -> bool {
    match (before, event) {
        (None, EncodeEvent::KeyframeWanted) => match after {
            Some(s) => step is Continue && s == initial(ENCODE_WIDTH, ENCODE_HEIGHT, ENCODE_FPS),
            None => step is NoEncoder,
        },
        (None, EncodeEvent::AllEnded) => after is None && step is Stop,
        (None, _) => after is None && step is Continue,
        (Some(s), EncodeEvent::KeyframeWanted) => step is Continue && after == Some(
            EncoderState { reset_requested: true, ..s },
        ),
        (Some(s), EncodeEvent::Captured(frame)) => if frame.cpu_buffer@.len() == 0 {
            after == before && step is Continue
        } else {
            match step {
                EncodeStep::Send(frames) => after matches Some(t) && encoded(
                    s,
                    frame,
                    t,
                    Ok(frames),
                ),
                EncodeStep::FrameFailed(e) => after matches Some(t) && encoded(
                    s,
                    frame,
                    t,
                    Err(e),
                ),
                _ => false,
            }
        },
        (Some(_), _) => after == before && step is Stop,
    }
}

impl EncodeTask {
    /// A task that waits for the first viewer.
    pub fn new() -> (t: Self)
        ensures
            t@ is None,
    {
        EncodeTask { encoder: None }
    }

    /// Whether the task can take a frame.
    pub fn can_take(&self, frame: &CapturedFrame) -> (b: bool)
        ensures
            b == (self@ matches Some(s) ==> frame.cpu_buffer@.len() > 0 ==> takes(s, *frame)),
    {
        match &self.encoder {
            Some(e) => frame.cpu_buffer.len() == 0 || e.can_encode(frame),
            None => true,
        }
    }

    /// Takes an event. Until the first viewer asks for a frame, captured frames are
    /// dropped; after that each one with pixels is encoded.
    pub fn on_event(&mut self, event: EncodeEvent) -> (step: EncodeStep)
        requires
            event matches EncodeEvent::Captured(frame) ==> (old(self)@ matches Some(s)
                ==> frame.cpu_buffer@.len() > 0 ==> takes(s, frame)),
        ensures
            encode_steps(old(self)@, event, final(self)@, step),
    {
        let mut encoder: Option<OpenH264Encoder> = None;
        std::mem::swap(&mut encoder, &mut self.encoder);
        match encoder {
            None => match event {
                EncodeEvent::KeyframeWanted => {
                    match OpenH264Encoder::new(ENCODE_WIDTH, ENCODE_HEIGHT, ENCODE_FPS) {
                        Ok(e) => {
                            self.encoder = Some(e);
                            EncodeStep::Continue
                        },
                        Err(e) => EncodeStep::NoEncoder(e),
                    }
                },
                EncodeEvent::AllEnded => EncodeStep::Stop,
                _ => EncodeStep::Continue,
            },
            Some(e) => {
                let mut e = e;
                let step = match event {
                    EncodeEvent::KeyframeWanted => {
                        e.request_keyframe();
                        EncodeStep::Continue
                    },
                    EncodeEvent::Captured(frame) => {
                        if frame.cpu_buffer.len() == 0 {
                            EncodeStep::Continue
                        } else {
                            match e.encode(&frame) {
                                Ok(frames) => EncodeStep::Send(frames),
                                Err(error) => EncodeStep::FrameFailed(error),
                            }
                        }
                    },
                    _ => EncodeStep::Stop,
                };
                self.encoder = Some(e);
                step
            },
        }
    }
}

/// What a message from the relay asks the service to do.
#[derive(Debug)]
pub enum HostAction {
    /// Have the next frame made one that can be decoded on its own.
    WantKeyframe,
    /// The viewer is gone, for the given reason.
    PeerGone(String),
    /// Inject input into the desktop.
    Inject(InputRecord),
    /// Answer, on a stream of its own.
    Answer(Message),
    Ignore,
}

/// The record that a mouse event asks for. An unknown type is a move, and an
/// unknown button is the left one.
pub open spec fn mouse_record(input: DesktopInput, e: MouseEvent) -> InputRecord {
    let event_type = match MouseEventType::spec_from_code(e.event_type) {
        Some(t) => t,
        None => MouseEventType::Move,
    };
    let button = match MouseButton::spec_from_code(e.button) {
        Some(b) => b,
        None => MouseButton::Left,
    };
    match event_type {
        MouseEventType::Move => input.move_record(e.x, e.y),
        MouseEventType::ButtonDown => button_record(button, true),
        MouseEventType::ButtonUp => button_record(button, false),
        MouseEventType::Wheel => wheel_record(e.wheel_delta),
    }
}

/// A 32-bit number with its sign.
pub open spec fn signed(n: u32) -> i32 {
    if n > i32::MAX {
        (n - 0x1_0000_0000) as i32
    } else {
        n as i32
    }
}

fn to_signed(n: u32) -> (m: i32)
    ensures
        m == signed(n),
{
    if n > 0x7fff_ffff {
        (n as i64 - 0x1_0000_0000) as i32
    } else {
        n as i32
    }
}

/// What a message from the relay asks the service to do. Keys are never injected as
/// extended ones.
pub fn handle_control_message(msg: Message, input: &mut DesktopInput) -> (a: HostAction)
    ensures
        *final(input) == *old(input),
        acts_on(msg, *old(input), a),
{
    match msg.kind {
        Some(Type::KeyFrameRequest(_)) => HostAction::WantKeyframe,
        Some(Type::PeerDisconnected(p)) => HostAction::PeerGone(p.reason),
        Some(Type::KeyEvent(e)) => HostAction::Inject(
            input.send_key(to_signed(e.key_code), e.pressed, false),
        ),
        Some(Type::MouseEvent(e)) => {
            let event_type = match MouseEventType::from_code(e.event_type) {
                Some(t) => t,
                None => MouseEventType::Move,
            };
            match event_type {
                MouseEventType::Move => HostAction::Inject(input.send_mouse_move(e.x, e.y)),
                MouseEventType::ButtonDown | MouseEventType::ButtonUp => {
                    let button = match MouseButton::from_code(e.button) {
                        Some(b) => b,
                        None => MouseButton::Left,
                    };
                    let pressed = event_type == MouseEventType::ButtonDown;
                    HostAction::Inject(input.send_mouse_button(button, pressed))
                },
                MouseEventType::Wheel => HostAction::Inject(
                    input.send_mouse_wheel(e.wheel_delta),
                ),
            }
        },
        Some(Type::Ping(p)) => HostAction::Answer(build_pong(&p)),
        _ => HostAction::Ignore,
    }
}

/// What came of waiting for a message from the relay.
#[derive(Debug)]
pub enum LinkEvent {
    Message(Message),
    /// The relay closed the stream without a message.
    Closed,
    /// Nothing can be received any more.
    Failed,
}

/// What the service does next.
#[derive(Debug)]
pub enum LinkStep {
    /// Do what the message asks for, then wait for the next.
    Do(HostAction),
    /// Stop receiving.
    Stop,
}

/// Whether `a` is what a message asks for.
pub open spec fn acts_on(msg: Message, input: DesktopInput, a: HostAction) -> bool {
    match msg.kind {
        Some(Type::KeyFrameRequest(_)) => a is WantKeyframe,
        Some(Type::PeerDisconnected(p)) => a == HostAction::PeerGone(p.reason),
        Some(Type::KeyEvent(e)) => a == HostAction::Inject(
            key_record(signed(e.key_code), e.pressed, false),
        ),
        Some(Type::MouseEvent(e)) => a == HostAction::Inject(mouse_record(input, e)),
        Some(Type::Ping(p)) => a matches HostAction::Answer(m) && m.kind == Some(
            Type::Pong(Pong { timestamp_ms: p.timestamp_ms }),
        ),
        _ => a is Ignore,
    }
}

/// What the service does after what came of waiting for a message.
pub open spec fn link_steps(event: LinkEvent, input: DesktopInput, step: LinkStep) -> bool {
    match event {
        LinkEvent::Message(msg) => step matches LinkStep::Do(a) && acts_on(msg, input, a),
        LinkEvent::Closed | LinkEvent::Failed => step is Stop,
    }
}

/// Takes what came of waiting for a message.
pub fn on_link_event(event: LinkEvent, input: &mut DesktopInput) -> (step: LinkStep)
    ensures
        *final(input) == *old(input),
        link_steps(event, *old(input), step),
{
    match event {
        LinkEvent::Message(msg) => LinkStep::Do(handle_control_message(msg, input)),
        LinkEvent::Closed => LinkStep::Stop,
        LinkEvent::Failed => LinkStep::Stop,
    }
}

/// Until a viewer asks for a frame nothing is encoded, and nothing is set up.
pub proof fn law_nothing_is_encoded_unasked(
    event: EncodeEvent,
    after: Option<EncoderState>,
    step: EncodeStep,
)
    requires
        encode_steps(None, event, after, step),
        !(event is KeyframeWanted),
    ensures
        after is None,
        !(step is Send) && !(step is FrameFailed) && !(step is NoEncoder),
{
}

/// When a viewer asks for a frame while others are being served, the next captured frame
/// with pixels is the first that a codec set up anew is given, unless none could be set
/// up.
pub proof fn law_a_new_viewer_gets_a_fresh_codec(
    s: EncoderState,
    mid: Option<EncoderState>,
    first: EncodeStep,
    frame: CapturedFrame,
    after: Option<EncoderState>,
    second: EncodeStep,
)
    requires
        encode_steps(Some(s), EncodeEvent::KeyframeWanted, mid, first),
        frame.cpu_buffer@.len() > 0,
        encode_steps(mid, EncodeEvent::Captured(frame), after, second),
        !(second matches EncodeStep::FrameFailed(EncodeError::Create(_))),
    ensures
        first is Continue,
        after matches Some(t) && t.codec.calls.len() == 1 && t.set_ups.len() == s.set_ups.len() + 1
            && t.frame_count == (s.frame_count + 1) as u64,
        second is Send || second is FrameFailed,
{
}

/// Every captured frame with pixels is given to the codec, and what the codec gives for it
/// is sent; the task stops when no frame will be captured any more.
pub proof fn law_captured_frames_are_encoded(
    s: EncoderState,
    frame: CapturedFrame,
    after: Option<EncoderState>,
    step: EncodeStep,
)
    requires
        frame.cpu_buffer@.len() > 0,
        !s.reset_requested,
        !s.force_keyframe,
        encode_steps(Some(s), EncodeEvent::Captured(frame), after, step),
    ensures
        after matches Some(t) && t.codec.calls.len() == s.codec.calls.len() + 1,
        step matches EncodeStep::Send(frames) ==> encoded(s, frame, after->0, Ok(frames)),
        step is Send || step is FrameFailed,
{
}

/// The task ends when nothing comes any more, and once a viewer has asked also when no
/// frame will be captured any more; nothing else ends it, unless no encoder can be set up.
/// A captured frame without pixels is passed over.
pub proof fn law_the_task_ends_with_its_events(
    before: Option<EncoderState>,
    event: EncodeEvent,
    after: Option<EncoderState>,
    step: EncodeStep,
)
    requires
        encode_steps(before, event, after, step),
    ensures
        step is Stop <==> event is AllEnded || (before is Some && event is CaptureEnded),
        step is NoEncoder <==> before is None && event is KeyframeWanted && after is None,
        event matches EncodeEvent::Captured(frame) ==> (frame.cpu_buffer@.len() == 0 ==> step
            is Continue && after == before),
{
}

/// The first viewer has an encoder set up for 1920 by 1080 pixels, sixty times a second,
/// which has been given nothing yet.
pub proof fn law_the_first_viewer_gets_an_encoder(after: Option<EncoderState>, step: EncodeStep)
    requires
        encode_steps(None, EncodeEvent::KeyframeWanted, after, step),
    ensures
        after is Some <==> step is Continue,
        after matches Some(s) ==> {
            &&& s.width == 1_920 && s.height == 1_080 && s.fps == 60
            &&& s.codec.calls.len() == 0 && s.frame_count == 0
        },
{
}

/// A key event is injected with the low sixteen bits of its code, whichever sign the code
/// is read with.
pub proof fn law_key_codes_are_kept(n: u32, pressed: bool, input: DesktopInput, a: HostAction)
    requires
        acts_on(
            (Message { kind: Some(Type::KeyEvent(KeyEvent { key_code: n, pressed })) }),
            input,
            a,
        ),
    ensures
        a matches HostAction::Inject(InputRecord::Key { virtual_key, .. }) && virtual_key == n
            % 0x1_0000,
        n <= i32::MAX ==> signed(n) == n,
        n > i32::MAX ==> signed(n) < 0 && signed(n) + 0x1_0000_0000 == n,
{
    assert((n - 0x1_0000_0000) % 0x1_0000 == n as int % 0x1_0000);
}

/// A mouse event of an unknown type is a move, and an unknown button is the left one.
pub proof fn law_unknown_mouse_events_are_moves(input: DesktopInput, e: MouseEvent)
    ensures
        !(0 <= e.event_type <= 3) ==> mouse_record(input, e) == input.move_record(e.x, e.y),
        !(0 <= e.button <= 2) ==> mouse_record(input, e) == mouse_record(
            input,
            (MouseEvent { button: MouseButton::Left.spec_code(), ..e }),
        ),
{
}

/// The service goes on with every message, and stops when the link is lost in whatever
/// way.
pub proof fn law_a_lost_link_stops_the_service(event: LinkEvent, input: DesktopInput, step: LinkStep)
    requires
        link_steps(event, input, step),
    ensures
        step is Stop <==> !(event is Message),
{
}

} // verus!
