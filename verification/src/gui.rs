//! The viewer: how it gets to a desktop, what it shows, and what it sends.

use crate::color::{argb_of, law_window_pixels_hold_colours, rgb24_to_argb};
use crate::decoder::{
    is_fed, may_decode, may_flush, renewed, DecodeError, DecodedFrame, DecoderPhase, Decoding,
    VideoDecoder,
};
use crate::keymap::{minifb_key_to_vk, virtual_key, Key};
use crate::message::{
    KeyEvent, KeyFrameRequest, Message, MouseButton, MouseEvent, MouseEventType, Pong, Type,
};
use crate::nal::finds_idr;
use crate::net::{
    build_pong, keyframe_request, pair_outcome, pair_request, paired_by, RequestError,
};
use vstd::prelude::*;
use vstd::string::StringExecFns;

verus! {

pub const DEFAULT_WIDTH: usize = 1_920;

pub const DEFAULT_HEIGHT: usize = 1_080;

/// How far the mouse has to move, in pixels, before the move is sent.
pub const MOUSE_THRESHOLD: i32 = 2;

/// The title of the window before there is a connection.
pub const INITIAL_TITLE: &'static str = "MyOwnDesk - 等待连接...";

pub const TITLE_PREFIX: &'static str = "MyOwnDesk - ";

pub const ERROR_TITLE_PREFIX: &'static str = "MyOwnDesk - 错误: ";

/// How far a viewer has come.
#[derive(Debug, Clone, Copy, PartialEq, Eq, Structural)]
pub enum ConnectionState {
    Connecting,
    Registering,
    Paired,
    Receiving,
    Disconnected,
    Error,
}

impl ConnectionState {
    /// The words for a state.
    pub open spec fn spec_label(self) -> Seq<char> {
        match self {
            ConnectionState::Connecting => "正在连接中继..."@,
            ConnectionState::Registering => "正在注册..."@,
            ConnectionState::Paired => "配对成功，等待视频流..."@,
            ConnectionState::Receiving => "接收中"@,
            ConnectionState::Disconnected => "连接已断开"@,
            ConnectionState::Error => "错误"@,
        }
    }

    pub fn label(&self) -> (text: &'static str)
        ensures
            text@ == self.spec_label(),
    {
        match self {
            ConnectionState::Connecting => "正在连接中继...",
            ConnectionState::Registering => "正在注册...",
            ConnectionState::Paired => "配对成功，等待视频流...",
            ConnectionState::Receiving => "接收中",
            ConnectionState::Disconnected => "连接已断开",
            ConnectionState::Error => "错误",
        }
    }

    /// The title of the window in a state.
    pub open spec fn spec_title(self) -> Seq<char> {
        TITLE_PREFIX@ + self.spec_label()
    }

    /// The title of the window in a state.
    pub fn title(&self) -> (text: String)
        ensures
            text@ == self.spec_title(),
    {
        TITLE_PREFIX.to_owned().concat(self.label())
    }
}

/// The title of the window after an error.
pub open spec fn error_title_of(error: Seq<char>) -> Seq<char> {
    ERROR_TITLE_PREFIX@ + error
}

/// The title of the window after an error.
pub fn error_title(error: &str) -> (text: String)
    ensures
        text@ == error_title_of(error@),
{
    ERROR_TITLE_PREFIX.to_owned().concat(error)
}

/// Why a session ended.
#[derive(Debug)]
pub enum SessionError {
    Connect(String),
    Register(String),
    /// The relay answered the request to be paired, but not with a pairing.
    NotPaired(RequestError),
    /// The request to be paired could not be made.
    Pair(String),
    Receive(String),
}

/// What the window is told.
#[derive(Debug)]
pub enum StateUpdate {
    State(ConnectionState),
    Error(SessionError),
}

/// How far a session has come.
#[derive(Debug, Clone, Copy, PartialEq, Eq, Structural)]
pub enum SessionPhase {
    Connecting,
    Registering,
    Pairing,
    Asking,
    Receiving,
    /// No more messages are received, but datagrams may still come.
    Draining,
    /// No more datagrams come, but messages may.
    Listening,
    Ended,
}

/// What came of the last thing that the session asked for.
#[derive(Debug)]
pub enum SessionEvent {
    Connected,
    ConnectFailed(String),
    Registered,
    RegisterFailed(String),
    PairAnswered(Option<Message>),
    PairFailed(String),
    /// The request for a first frame was sent, or could not be; either will do.
    KeyframeAsked(bool),
    /// A message came on a stream.
    Message(Message),
    /// The relay closed a stream without a message.
    StreamClosed,
    StreamFailed(String),
    /// No datagram will come any more.
    DatagramsEnded,
}

/// What a session asks for.
#[derive(Debug)]
pub enum SessionAction {
    Connect,
    Register,
    /// Send the request to be paired, and wait for the answer.
    RequestPairing(Message),
    /// Send the request for a first frame.
    AskForKeyframe(Message),
    /// Receive datagrams and messages, and send input.
    Receive,
    /// Answer, and go on receiving.
    Answer(Message),
    GoOn,
    /// Stop receiving messages.
    StopMessages,
    /// End the session: it failed.
    GiveUp,
}

/// What a session does next, and what it tells the window.
#[derive(Debug)]
pub struct SessionStep {
    pub update: Option<StateUpdate>,
    pub action: SessionAction,
}

/// A viewer's way to a desktop: connect, register, be paired, ask for a first
/// frame, and receive.
#[derive(Debug)]
pub struct Session {
    pub target_device_id: String,
    pub phase: SessionPhase,
}

/// Whether an event can come in a phase.
pub open spec fn fits(phase: SessionPhase, event: SessionEvent) -> bool {
    match phase {
        SessionPhase::Connecting => event is Connected || event is ConnectFailed,
        SessionPhase::Registering => event is Registered || event is RegisterFailed,
        SessionPhase::Pairing => event is PairAnswered || event is PairFailed,
        SessionPhase::Asking => event is KeyframeAsked,
        SessionPhase::Receiving => event is Message || event is StreamClosed || event
            is StreamFailed || event is DatagramsEnded,
        SessionPhase::Draining => event is DatagramsEnded,
        SessionPhase::Listening => event is Message || event is StreamClosed || event
            is StreamFailed,
        SessionPhase::Ended => false,
    }
}

/// The phase once no more messages are received.
pub open spec fn without_messages(phase: SessionPhase) -> SessionPhase {
    if phase == SessionPhase::Listening {
        SessionPhase::Ended
    } else {
        SessionPhase::Draining
    }
}

/// The phase once no more datagrams come.
pub open spec fn without_datagrams(phase: SessionPhase) -> SessionPhase {
    if phase == SessionPhase::Draining {
        SessionPhase::Ended
    } else {
        SessionPhase::Listening
    }
}

/// Whether a step tells the window of a state.
pub open spec fn tells(step: SessionStep, state: ConnectionState) -> bool {
    step.update == Some(StateUpdate::State(state))
}

/// Whether a step tells the window of an error.
pub open spec fn complains(step: SessionStep, error: SessionError) -> bool {
    step.update == Some(StateUpdate::Error(error))
}

/// Whether an event leads a session to the desktop `target` from the phase `before` to
/// `after`, with the step `step`.
pub open spec fn goes_on(
    target: Seq<char>,
    before: SessionPhase,
    event: SessionEvent,
    after: SessionPhase,
    step: SessionStep,
) -> bool {
    match event {
        SessionEvent::Connected => {
            &&& tells(step, ConnectionState::Registering)
            &&& step.action is Register
            &&& after == SessionPhase::Registering
        },
        SessionEvent::ConnectFailed(e) => {
            &&& complains(step, SessionError::Connect(e))
            &&& step.action is GiveUp
            &&& after == SessionPhase::Ended
        },
        SessionEvent::Registered => {
            &&& step.update is None
            &&& step.action matches SessionAction::RequestPairing(m)
            &&& m.kind matches Some(Type::Pair(p))
            &&& p.target_device_id@ == target
            &&& after == SessionPhase::Pairing
        },
        SessionEvent::RegisterFailed(e) => {
            &&& complains(step, SessionError::Register(e))
            &&& step.action is GiveUp
            &&& after == SessionPhase::Ended
        },
        SessionEvent::PairAnswered(answer) => match paired_by(answer) {
            Ok(_) => {
                &&& tells(step, ConnectionState::Paired)
                &&& step.action matches SessionAction::AskForKeyframe(m)
                &&& m.kind == Some(
                    Type::KeyFrameRequest(KeyFrameRequest { display_index: 0 }),
                )
                &&& after == SessionPhase::Asking
            },
            Err(e) => {
                &&& complains(step, SessionError::NotPaired(e))
                &&& step.action is GiveUp
                &&& after == SessionPhase::Ended
            },
        },
        SessionEvent::PairFailed(e) => {
            &&& complains(step, SessionError::Pair(e))
            &&& step.action is GiveUp
            &&& after == SessionPhase::Ended
        },
        SessionEvent::KeyframeAsked(_) => {
            &&& tells(step, ConnectionState::Receiving)
            &&& step.action is Receive
            &&& after == SessionPhase::Receiving
        },
        SessionEvent::Message(m) => match m.kind {
            Some(Type::PeerDisconnected(_)) => {
                &&& tells(step, ConnectionState::Disconnected)
                &&& step.action is StopMessages
                &&& after == without_messages(before)
            },
            Some(Type::Ping(p)) => {
                &&& step.update is None
                &&& step.action matches SessionAction::Answer(m)
                &&& m.kind == Some(Type::Pong(Pong { timestamp_ms: p.timestamp_ms }))
                &&& after == before
            },
            _ => {
                &&& step.update is None
                &&& step.action is GoOn
                &&& after == before
            },
        },
        SessionEvent::StreamClosed => {
            &&& tells(step, ConnectionState::Disconnected)
            &&& step.action is StopMessages
            &&& after == without_messages(before)
        },
        SessionEvent::StreamFailed(e) => {
            &&& complains(step, SessionError::Receive(e))
            &&& step.action is StopMessages
            &&& after == without_messages(before)
        },
        SessionEvent::DatagramsEnded => {
            &&& tells(step, ConnectionState::Disconnected)
            &&& step.action is GoOn
            &&& after == without_datagrams(before)
        },
    }
}

/// How a session begins.
pub open spec fn begins(target: String, session: Session, step: SessionStep) -> bool {
    &&& session.target_device_id == target
    &&& session.phase == SessionPhase::Connecting
    &&& tells(step, ConnectionState::Connecting)
    &&& step.action is Connect
}

impl Session {
    /// Begins a session: the viewer has to connect.
    pub fn begin(target_device_id: String) -> (r: (Session, SessionStep))
        ensures
            begins(target_device_id, r.0, r.1),
    {
        (
            Session { target_device_id, phase: SessionPhase::Connecting },
            SessionStep {
                update: Some(StateUpdate::State(ConnectionState::Connecting)),
                action: SessionAction::Connect,
            },
        )
    }

    /// Notes that no more messages are received.
    fn stop_messages(&mut self)
        ensures
            final(self).target_device_id == old(self).target_device_id,
            final(self).phase == without_messages(old(self).phase),
    {
        self.phase = if self.phase == SessionPhase::Listening {
            SessionPhase::Ended
        } else {
            SessionPhase::Draining
        };
    }

    /// Takes what came of the last request.
    pub fn step(&mut self, event: SessionEvent) -> (step: SessionStep)
        requires
            fits(old(self).phase, event),
        ensures
            final(self).target_device_id == old(self).target_device_id,
            goes_on(
                old(self).target_device_id@,
                old(self).phase,
                event,
                final(self).phase,
                step,
            ),
    {
        match event {
            SessionEvent::Connected => {
                self.phase = SessionPhase::Registering;
                SessionStep {
                    update: Some(StateUpdate::State(ConnectionState::Registering)),
                    action: SessionAction::Register,
                }
            },
            SessionEvent::ConnectFailed(e) => {
                self.phase = SessionPhase::Ended;
                SessionStep {
                    update: Some(StateUpdate::Error(SessionError::Connect(e))),
                    action: SessionAction::GiveUp,
                }
            },
            SessionEvent::Registered => {
                self.phase = SessionPhase::Pairing;
                SessionStep {
                    update: None,
                    action: SessionAction::RequestPairing(
                        pair_request(self.target_device_id.as_str()),
                    ),
                }
            },
            SessionEvent::RegisterFailed(e) => {
                self.phase = SessionPhase::Ended;
                SessionStep {
                    update: Some(StateUpdate::Error(SessionError::Register(e))),
                    action: SessionAction::GiveUp,
                }
            },
            SessionEvent::PairAnswered(answer) => match pair_outcome(answer) {
                Ok(()) => {
                    self.phase = SessionPhase::Asking;
                    SessionStep {
                        update: Some(StateUpdate::State(ConnectionState::Paired)),
                        action: SessionAction::AskForKeyframe(keyframe_request()),
                    }
                },
                Err(e) => {
                    self.phase = SessionPhase::Ended;
                    SessionStep {
                        update: Some(StateUpdate::Error(SessionError::NotPaired(e))),
                        action: SessionAction::GiveUp,
                    }
                },
            },
            SessionEvent::PairFailed(e) => {
                self.phase = SessionPhase::Ended;
                SessionStep {
                    update: Some(StateUpdate::Error(SessionError::Pair(e))),
                    action: SessionAction::GiveUp,
                }
            },
            SessionEvent::KeyframeAsked(_) => {
                self.phase = SessionPhase::Receiving;
                SessionStep {
                    update: Some(StateUpdate::State(ConnectionState::Receiving)),
                    action: SessionAction::Receive,
                }
            },
            SessionEvent::Message(m) => match m.kind {
                Some(Type::PeerDisconnected(_)) => {
                    self.stop_messages();
                    SessionStep {
                        update: Some(StateUpdate::State(ConnectionState::Disconnected)),
                        action: SessionAction::StopMessages,
                    }
                },
                Some(Type::Ping(p)) => SessionStep {
                    update: None,
                    action: SessionAction::Answer(build_pong(&p)),
                },
                _ => SessionStep { update: None, action: SessionAction::GoOn },
            },
            SessionEvent::StreamClosed => {
                self.stop_messages();
                SessionStep {
                    update: Some(StateUpdate::State(ConnectionState::Disconnected)),
                    action: SessionAction::StopMessages,
                }
            },
            SessionEvent::StreamFailed(e) => {
                self.stop_messages();
                SessionStep {
                    update: Some(StateUpdate::Error(SessionError::Receive(e))),
                    action: SessionAction::StopMessages,
                }
            },
            SessionEvent::DatagramsEnded => {
                self.phase = if self.phase == SessionPhase::Draining {
                    SessionPhase::Ended
                } else {
                    SessionPhase::Listening
                };
                SessionStep {
                    update: Some(StateUpdate::State(ConnectionState::Disconnected)),
                    action: SessionAction::GoOn,
                }
            },
        }
    }
}

/// A mouse event.
pub open spec fn mouse_message(
    event_type: MouseEventType,
    x: i32,
    y: i32,
    button: MouseButton,
    wheel_delta: i32,
) -> Message {
    Message {
        kind: Some(
            Type::MouseEvent(
                MouseEvent {
                    event_type: event_type.spec_code(),
                    x,
                    y,
                    button: button.spec_code(),
                    wheel_delta,
                },
            ),
        ),
    }
}

/// A key event.
pub open spec fn key_message(key_code: i32, pressed: bool) -> Message {
    Message { kind: Some(Type::KeyEvent(KeyEvent { key_code: key_code as u32, pressed })) }
}

pub fn build_mouse_event(
    event_type: MouseEventType,
    x: i32,
    y: i32,
    button: MouseButton,
    wheel_delta: i32,
) -> (m: Message)
    ensures
        m == mouse_message(event_type, x, y, button, wheel_delta),
{
    Message {
        kind: Some(
            Type::MouseEvent(
                MouseEvent {
                    event_type: event_type.code(),
                    x,
                    y,
                    button: button.code(),
                    wheel_delta,
                },
            ),
        ),
    }
}

pub fn build_key_event(key_code: i32, pressed: bool) -> (m: Message)
    ensures
        m == key_message(key_code, pressed),
        m.kind matches Some(Type::KeyEvent(e)) && e.pressed == pressed && (key_code >= 0
            ==> e.key_code == key_code),
{
    Message {
        kind: Some(
            Type::KeyEvent(KeyEvent { key_code: #[verifier::truncate] (key_code as u32), pressed }),
        ),
    }
}

/// Where the mouse is: the whole pixels around its place in the window, and the
/// pixel of the desktop that it stands for.
#[derive(Debug, Clone, Copy, PartialEq, Eq, Structural)]
pub struct MouseSample {
    pub x_floor: i32,
    pub x_ceil: i32,
    pub y_floor: i32,
    pub y_ceil: i32,
    pub host_x: i32,
    pub host_y: i32,
}

/// What a window has to say of its mouse and its keys.
#[derive(Debug)]
pub struct WindowInput {
    /// Where the mouse is, if it is over the window at all.
    pub mouse: Option<MouseSample>,
    /// The left, right and middle button.
    pub buttons: [bool; 3],
    /// How far the wheel was turned, in whole notches.
    pub wheel: Option<i32>,
    /// The keys that went down.
    pub pressed: Vec<Key>,
    /// The keys that came up.
    pub released: Vec<Key>,
    /// Where the window is on its desktop.
    pub position: (i64, i64),
    pub size: (u32, u32),
}

/// Turns what happens in the window into messages.
#[derive(Debug)]
pub struct InputCapture {
    pub mouse_threshold: i32,
    /// Where the mouse is expected after the last move that was sent.
    pub prev_mouse_pos: Option<(i64, i64)>,
    pub prev_mouse_buttons: [bool; 3],
    pub frame_w: u32,
    pub frame_h: u32,
}

/// The button with an index.
pub open spec fn button_at(i: int) -> MouseButton {
    if i == 0 {
        MouseButton::Left
    } else if i == 1 {
        MouseButton::Right
    } else {
        MouseButton::Middle
    }
}

/// Whether a place is at least `threshold` pixels away from where it was expected,
/// on one axis.
pub open spec fn moved(floor: i32, ceil: i32, expected: int, threshold: i32) -> bool {
    floor >= expected + threshold || ceil <= expected - threshold
}

/// Whether a move has to be sent.
pub open spec fn move_due(s: MouseSample, prev: Option<(i64, i64)>, threshold: i32) -> bool {
    match prev {
        Some(p) => moved(s.x_floor, s.x_ceil, p.0 as int, threshold) || moved(
            s.y_floor,
            s.y_ceil,
            p.1 as int,
            threshold,
        ),
        None => true,
    }
}

/// A coordinate of the desktop, seen from a window there: not before its first
/// pixel and not behind its last.
pub open spec fn seen_from(host: i32, origin: i64, size: u32) -> int {
    let last = if size == 0 {
        0
    } else {
        size - 1
    };
    let x = host - origin;
    if x < 0 {
        0
    } else if x > last {
        last
    } else {
        x
    }
}

/// Whether the mouse is expected at `p` in the window once a move to where `s` says was
/// injected into the desktop that the window is on.
pub open spec fn is_expected(p: (i64, i64), s: MouseSample, input: WindowInput) -> bool {
    &&& p.0 == seen_from(s.host_x, input.position.0, input.size.0)
    &&& p.1 == seen_from(s.host_y, input.position.1, input.size.1)
}

/// The messages of the buttons before index `i`: one for each that changed.
pub open spec fn button_messages(before: [bool; 3], now: [bool; 3], i: int) -> Seq<Message>
    decreases i,
{
    if i <= 0 {
        Seq::empty()
    } else {
        let rest = button_messages(before, now, i - 1);
        if before[i - 1] == now[i - 1] {
            rest
        } else {
            rest.push(
                mouse_message(
                    if now[i - 1] {
                        MouseEventType::ButtonDown
                    } else {
                        MouseEventType::ButtonUp
                    },
                    0,
                    0,
                    button_at(i - 1),
                    0,
                ),
            )
        }
    }
}

/// The messages of a row of keys: one for each that has a code.
pub open spec fn key_messages(keys: Seq<Key>, pressed: bool) -> Seq<Message>
    decreases keys.len(),
{
    if keys.len() == 0 {
        Seq::empty()
    } else {
        let rest = key_messages(keys.drop_last(), pressed);
        match virtual_key(keys.last()) {
            Some(vk) => rest.push(key_message(vk, pressed)),
            None => rest,
        }
    }
}

/// The message of the mouse's place, if a move has to be sent.
pub open spec fn move_messages(
    s: MouseSample,
    prev: Option<(i64, i64)>,
    threshold: i32,
) -> Seq<Message> {
    if move_due(s, prev, threshold) {
        seq![mouse_message(MouseEventType::Move, s.host_x, s.host_y, MouseButton::Left, 0)]
    } else {
        Seq::empty()
    }
}

/// The message of the wheel, if it was turned.
pub open spec fn wheel_messages(wheel: Option<i32>) -> Seq<Message> {
    match wheel {
        Some(delta) if delta != 0 => seq![
            mouse_message(MouseEventType::Wheel, 0, 0, MouseButton::Left, delta),
        ],
        _ => Seq::empty(),
    }
}

/// Everything that the mouse has to say. Without a place, its buttons and its wheel
/// say nothing either.
pub open spec fn mouse_messages(c: InputCapture, input: WindowInput) -> Seq<Message> {
    match input.mouse {
        Some(s) => move_messages(s, c.prev_mouse_pos, c.mouse_threshold) + button_messages(
            c.prev_mouse_buttons,
            input.buttons,
            3,
        ) + wheel_messages(input.wheel),
        None => Seq::empty(),
    }
}

/// Whether nothing was told yet.
pub open spec fn has_seen_nothing(c: InputCapture) -> bool {
    &&& c.mouse_threshold == MOUSE_THRESHOLD
    &&& c.prev_mouse_pos is None
    &&& c.prev_mouse_buttons@ == seq![false, false, false]
    &&& c.frame_w == DEFAULT_WIDTH
    &&& c.frame_h == DEFAULT_HEIGHT
}

/// What is remembered of a call, for the next one.
pub open spec fn remembers(before: InputCapture, input: WindowInput, after: InputCapture) -> bool {
    &&& after.mouse_threshold == before.mouse_threshold
    &&& after.frame_w == before.frame_w
    &&& after.frame_h == before.frame_h
    &&& match input.mouse {
        Some(s) => {
            &&& after.prev_mouse_buttons@ == input.buttons@
            &&& if move_due(s, before.prev_mouse_pos, before.mouse_threshold) {
                after.prev_mouse_pos matches Some(p) && is_expected(p, s, input)
            } else {
                after.prev_mouse_pos == before.prev_mouse_pos
            }
        },
        None => {
            &&& after.prev_mouse_buttons == before.prev_mouse_buttons
            &&& after.prev_mouse_pos == before.prev_mouse_pos
        },
    }
}

/// What a frame of some size, or none, changes.
pub open spec fn resized(c: InputCapture, frame_size: Option<(u32, u32)>) -> InputCapture {
    match frame_size {
        Some((w, h)) => InputCapture { frame_w: w, frame_h: h, ..c },
        None => c,
    }
}

/// Adds the message of each key that has a code.
fn push_keys(events: &mut Vec<Message>, keys: &Vec<Key>, pressed: bool)
    ensures
        final(events)@ == old(events)@ + key_messages(keys@, pressed),
{
    let ghost before = events@;
    let mut i: usize = 0;
    while i < keys.len()
        invariant
            0 <= i <= keys@.len(),
            events@ == before + key_messages(keys@.take(i as int), pressed),
        decreases keys@.len() - i,
    {
        assert(keys@.take(i + 1).drop_last() =~= keys@.take(i as int));
        if let Some(vk) = minifb_key_to_vk(keys[i]) {
            events.push(build_key_event(vk, pressed));
        }
        assert(events@ =~= before + key_messages(keys@.take(i + 1), pressed));
        i += 1;
    }
    assert(keys@.take(i as int) =~= keys@);
}

impl InputCapture {
    pub fn new() -> (c: Self)
        ensures
            has_seen_nothing(c),
    {
        let prev_mouse_buttons: [bool; 3] = [false, false, false];
        assert(prev_mouse_buttons@ =~= seq![false, false, false]);
        InputCapture {
            mouse_threshold: MOUSE_THRESHOLD,
            prev_mouse_pos: None,
            prev_mouse_buttons,
            frame_w: DEFAULT_WIDTH as u32,
            frame_h: DEFAULT_HEIGHT as u32,
        }
    }

    /// Takes note of the size of the frame that is shown, if there is one. Places of
    /// the mouse are scaled to it.
    pub fn resize(&mut self, frame_size: Option<(u32, u32)>)
        ensures
            *final(self) == resized(*old(self), frame_size),
    {
        if let Some((w, h)) = frame_size {
            self.frame_w = w;
            self.frame_h = h;
        }
    }

    /// Turns what happened in the window since the last call into messages: moves,
    /// buttons, wheel, keys that went down, keys that came up. After a move the mouse
    /// is expected where the injected move puts it, so that a window on the desktop
    /// that it shows does not follow itself.
    pub fn poll(&mut self, input: &WindowInput) -> (events: Vec<Message>)
        ensures
            events@ == mouse_messages(*old(self), *input) + key_messages(input.pressed@, true)
                + key_messages(input.released@, false),
            remembers(*old(self), *input, *final(self)),
    {
        let mut events: Vec<Message> = Vec::new();
        if let Some(s) = input.mouse {
            let due = match self.prev_mouse_pos {
                Some((px, py)) => {
                    let t: i128 = self.mouse_threshold as i128;
                    let x: i128 = px as i128;
                    let y: i128 = py as i128;
                    s.x_floor as i128 >= x + t || s.x_ceil as i128 <= x - t || s.y_floor as i128
                        >= y + t || s.y_ceil as i128 <= y - t
                },
                None => true,
            };
            assert(due == move_due(s, self.prev_mouse_pos, self.mouse_threshold));
            if due {
                events.push(
                    build_mouse_event(
                        MouseEventType::Move,
                        s.host_x,
                        s.host_y,
                        MouseButton::Left,
                        0,
                    ),
                );
                self.prev_mouse_pos = Some(
                    (
                        place_in(s.host_x, input.position.0, input.size.0),
                        place_in(s.host_y, input.position.1, input.size.1),
                    ),
                );
            }
            let ghost moves = move_messages(s, old(self).prev_mouse_pos, old(self).mouse_threshold);
            assert(events@ =~= moves);
            let ghost before = old(self).prev_mouse_buttons;
            let mut i: usize = 0;
            while i < 3
                invariant
                    0 <= i <= 3,
                    events@ == moves + button_messages(before, input.buttons, i as int),
                    forall|j: int| 0 <= j < i ==> self.prev_mouse_buttons@[j] == input.buttons@[j],
                    forall|j: int| i <= j < 3 ==> self.prev_mouse_buttons@[j] == before@[j],
                    self.mouse_threshold == old(self).mouse_threshold,
                    self.frame_w == old(self).frame_w,
                    self.frame_h == old(self).frame_h,
                    if due {
                        self.prev_mouse_pos matches Some(p) && is_expected(p, s, *input)
                    } else {
                        self.prev_mouse_pos == old(self).prev_mouse_pos
                    },
                decreases 3 - i,
            {
                let down = input.buttons[i];
                if down != self.prev_mouse_buttons[i] {
                    let button = if i == 0 {
                        MouseButton::Left
                    } else if i == 1 {
                        MouseButton::Right
                    } else {
                        MouseButton::Middle
                    };
                    let event_type = if down {
                        MouseEventType::ButtonDown
                    } else {
                        MouseEventType::ButtonUp
                    };
                    events.push(build_mouse_event(event_type, 0, 0, button, 0));
                    self.prev_mouse_buttons[i] = down;
                }
                assert(events@ =~= moves + button_messages(before, input.buttons, i + 1));
                i += 1;
            }
            assert(self.prev_mouse_buttons@ =~= input.buttons@);
            if let Some(delta) = input.wheel {
                if delta != 0 {
                    events.push(
                        build_mouse_event(MouseEventType::Wheel, 0, 0, MouseButton::Left, delta),
                    );
                }
            }
            assert(events@ =~= moves + button_messages(before, input.buttons, 3) + wheel_messages(
                input.wheel,
            ));
        }
        assert(events@ =~= mouse_messages(*old(self), *input));
        push_keys(&mut events, &input.pressed, true);
        push_keys(&mut events, &input.released, false);
        events
    }
}

/// Where a coordinate of the desktop is, seen from a window there.
fn place_in(host: i32, origin: i64, size: u32) -> (x: i64)
    ensures
        x == seen_from(host, origin, size),
{
    let last: i128 = if size == 0 {
        0
    } else {
        size as i128 - 1
    };
    let x: i128 = host as i128 - origin as i128;
    if x < 0 {
        0
    } else if x > last {
        last as i64
    } else {
        x as i64
    }
}

/// The pixels that the window shows.
#[derive(Debug)]
pub struct Canvas {
    pub buffer: Vec<u32>,
    pub last_frame_size: (u32, u32),
    /// The size of the frame that is shown, once there is one.
    pub shown: Option<(u32, u32)>,
}

/// Whether a frame has all its pixels, and not too many to count.
pub open spec fn is_whole(frame: DecodedFrame) -> bool {
    &&& frame.width * frame.height <= u32::MAX
    &&& 3 * (frame.width * frame.height) <= frame.rgb_data@.len()
}

/// Whether the first pixels of `buffer` are those of a frame.
pub open spec fn holds_frame(buffer: Seq<u32>, frame: DecodedFrame) -> bool {
    &&& frame.width * frame.height <= buffer.len()
    &&& forall|i: int|
        0 <= i < frame.width * frame.height ==> #[trigger] buffer[i] == argb_of(
            frame.rgb_data@[3 * i],
            frame.rgb_data@[3 * i + 1],
            frame.rgb_data@[3 * i + 2],
        )
}

/// Whether a canvas has shown no frame yet.
pub open spec fn is_black(c: Canvas) -> bool {
    &&& c.shown is None
    &&& c.last_frame_size == (0u32, 0u32)
    &&& c.buffer@ == Seq::new((DEFAULT_WIDTH * DEFAULT_HEIGHT) as nat, |i: int| 0u32)
}

/// What a canvas shows after a row of frames: the last one, if there is one.
pub open spec fn takes_on(before: Canvas, frames: Seq<DecodedFrame>, after: Canvas) -> bool {
    if frames.len() == 0 {
        after == before
    } else {
        let frame = frames.last();
        let size = (frame.width, frame.height);
        &&& after.shown == Some(size)
        &&& after.last_frame_size == size
        &&& holds_frame(after.buffer@, frame)
        &&& after.buffer@.len() == if size == before.last_frame_size {
            before.buffer@.len() as int
        } else {
            frame.width * frame.height
        }
    }
}

impl Canvas {
    /// The buffer is large enough for the last frame.
    pub open spec fn wf(&self) -> bool {
        self.last_frame_size.0 * self.last_frame_size.1 <= self.buffer@.len()
    }

    pub fn new() -> (c: Self)
        ensures
            c.wf(),
            is_black(c),
    {
        let buffer: Vec<u32> = vec![0; 2_073_600];
        assert(buffer@ =~= Seq::new((DEFAULT_WIDTH * DEFAULT_HEIGHT) as nat, |i: int| 0u32));
        Canvas { buffer, last_frame_size: (0, 0), shown: None }
    }

    /// Shows the last of the frames that were decoded since the last call, if there
    /// are any. The buffer takes on the frame's size when the size changes.
    pub fn show(&mut self, frames: &Vec<DecodedFrame>)
        requires
            old(self).wf(),
            frames@.len() > 0 ==> is_whole(frames@.last()),
        ensures
            final(self).wf(),
            takes_on(*old(self), frames@, *final(self)),
    {
        if frames.len() == 0 {
            return;
        }
        let frame = &frames[frames.len() - 1];
        let size = (frame.width, frame.height);
        let changed = frame.width != self.last_frame_size.0 || frame.height
            != self.last_frame_size.1;
        self.last_frame_size = size;
        if changed {
            let len: usize = (frame.width * frame.height) as usize;
            if self.buffer.len() != len {
                self.buffer.resize(len, 0);
            }
        }
        rgb24_to_argb(frame.rgb_data.as_slice(), frame.width, frame.height, &mut self.buffer);
        self.shown = Some(size);
    }
}

/// What one piece of data can do to a decoder, and what can come of it. Data that
/// cannot be decoded gives no frame.
pub open spec fn may_step(
    before: DecoderPhase,
    data: Seq<u8>,
    after: DecoderPhase,
    frames: Seq<DecodedFrame>,
) -> bool {
    if is_fed(before, data) {
        ||| may_decode(renewed(before), finds_idr(data, 0), after, frames)
        ||| after == DecoderPhase::Failed && frames.len() == 0
    } else {
        after == before && frames.len() == 0
    }
}

/// What a row of data, one piece after the other, can do to a decoder.
pub open spec fn may_run(
    before: DecoderPhase,
    batch: Seq<Vec<u8>>,
    after: DecoderPhase,
    frames: Seq<DecodedFrame>,
) -> bool
    decreases batch.len(),
{
    if batch.len() == 0 {
        after == before && frames.len() == 0
    } else {
        exists|mid: DecoderPhase, k: int|
            0 <= k <= frames.len() && may_run(before, batch.drop_last(), mid, frames.take(k))
                && #[trigger] may_step(mid, batch.last()@, after, frames.skip(k))
    }
}

/// A row of data is its front, and then its last piece.
proof fn lemma_one_more(
    before: DecoderPhase,
    batch: Seq<Vec<u8>>,
    mid: DecoderPhase,
    after: DecoderPhase,
    frames: Seq<DecodedFrame>,
    k: int,
)
    requires
        batch.len() > 0,
        0 <= k <= frames.len(),
        may_run(before, batch.drop_last(), mid, frames.take(k)),
        may_step(mid, batch.last()@, after, frames.skip(k)),
    ensures
        may_run(before, batch, after, frames),
{
}

/// The frames in what a decoder gave out: none if it could not.
pub open spec fn given_out(r: Result<Vec<DecodedFrame>, DecodeError>) -> Seq<DecodedFrame> {
    match r {
        Ok(frames) => frames@,
        Err(_) => Seq::empty(),
    }
}

/// The frames in what a decoder gave out: none if it could not.
pub fn frames_given_out(r: Result<Vec<DecodedFrame>, DecodeError>) -> (frames: Vec<DecodedFrame>)
    ensures
        frames@ == given_out(r),
{
    match r {
        Ok(frames) => frames,
        Err(_) => Vec::new(),
    }
}

/// The frames in a row of answers, in order.
pub open spec fn frames_of(answers: Seq<Result<Vec<DecodedFrame>, DecodeError>>) -> Seq<
    DecodedFrame,
>
    decreases answers.len(),
{
    if answers.len() == 0 {
        Seq::empty()
    } else {
        frames_of(answers.drop_last()) + given_out(answers.last())
    }
}

/// How many of a row of answers are errors.
pub open spec fn failures_in(answers: Seq<Result<Vec<DecodedFrame>, DecodeError>>) -> nat
    decreases answers.len(),
{
    if answers.len() == 0 {
        0
    } else {
        failures_in(answers.drop_last()) + if answers.last() is Err {
            1nat
        } else {
            0nat
        }
    }
}

/// The frames in a row of answers, in order, and how many of the answers are errors.
pub fn gather(answers: Vec<Result<Vec<DecodedFrame>, DecodeError>>) -> (r: (
    Vec<DecodedFrame>,
    usize,
))
    ensures
        r.0@ == frames_of(answers@),
        r.1 == failures_in(answers@),
{
    let ghost all = answers@;
    let n: usize = answers.len();
    let mut frames: Vec<DecodedFrame> = Vec::new();
    let mut failures: usize = 0;
    for answer in it: answers
        invariant
            it.seq() == all,
            frames@ == frames_of(all.take(it.index())),
            failures == failures_in(all.take(it.index())),
            failures <= it.index(),
            n == all.len(),
    {
        assert(all.take(it.index() + 1).drop_last() =~= all.take(it.index()));
        if answer.is_err() {
            failures += 1;
        }
        let mut more = frames_given_out(answer);
        frames.append(&mut more);
    }
    assert(all.take(all.len() as int) =~= all);
    (frames, failures)
}

/// The answers in a history since it was `before`.
pub open spec fn answers_since(before: Seq<Decoding>, after: Seq<Decoding>) -> Seq<
    Result<Vec<DecodedFrame>, DecodeError>,
> {
    after.skip(before.len() as int).map_values(|d: Decoding| d.answer)
}

/// Whether a decoder was asked to decode the pieces of `batch`, one after the other,
/// since its history was `before`.
pub open spec fn asked_for(
    before: Seq<Decoding>,
    batch: Seq<Vec<u8>>,
    after: Seq<Decoding>,
) -> bool {
    &&& after.len() == before.len() + batch.len()
    &&& after.take(before.len() as int) == before
    &&& forall|k: int|
        0 <= k < batch.len() ==> #[trigger] after[before.len() + k].data == batch[k]@
}

/// Decodes a row of data, one piece after the other, and gives out the frames in
/// order. Data that cannot be decoded is passed over, and counted.
pub fn decode_batch(decoder: &mut Box<dyn VideoDecoder>, batch: &Vec<Vec<u8>>) -> (r: (
    Vec<DecodedFrame>,
    usize,
))
    ensures
        asked_for(old(decoder).history(), batch@, final(decoder).history()),
        r.0@ == frames_of(answers_since(old(decoder).history(), final(decoder).history())),
        r.1 == failures_in(answers_since(old(decoder).history(), final(decoder).history())),
        may_run(old(decoder).phase(), batch@, final(decoder).phase(), r.0@),
{
    let mut answers: Vec<Result<Vec<DecodedFrame>, DecodeError>> = Vec::new();
    let mut i: usize = 0;
    let ghost start = decoder.phase();
    let ghost past = decoder.history();
    assert(past.take(past.len() as int) =~= past);
    while i < batch.len()
        invariant
            0 <= i <= batch@.len(),
            answers@.len() == i,
            asked_for(past, batch@.take(i as int), decoder.history()),
            answers@ == answers_since(past, decoder.history()),
            may_run(start, batch@.take(i as int), decoder.phase(), frames_of(answers@)),
        decreases batch@.len() - i,
    {
        let ghost mid = decoder.phase();
        let ghost before = answers@;
        let ghost earlier = decoder.history();
        let answer = decoder.decode(batch[i].as_slice());
        let ghost new = given_out(answer);
        answers.push(answer);
        proof {
            let row = batch@.take(i + 1);
            assert(row.drop_last() =~= batch@.take(i as int));
            assert(row.last() == batch@[i as int]);
            assert(answers@.drop_last() =~= before);
            let frames = frames_of(answers@);
            let k = frames_of(before).len() as int;
            assert(frames.take(k) =~= frames_of(before));
            assert(frames.skip(k) =~= new);
            lemma_one_more(start, row, mid, decoder.phase(), frames, k);
            let history = decoder.history();
            assert(history.take(past.len() as int) =~= earlier.take(past.len() as int));
            assert forall|k: int| 0 <= k < row.len() implies #[trigger] history[past.len()
                + k].data == row[k]@ by {
                if k < i {
                    assert(earlier[past.len() + k].data == batch@.take(i as int)[k]@);
                }
            }
            assert(answers@ =~= answers_since(past, history));
        }
        i += 1;
    }
    assert(batch@.take(i as int) =~= batch@);
    gather(answers)
}

/// Gives out what a decoder still holds when no more data will come; nothing if it
/// cannot.
pub fn drain(decoder: &mut Box<dyn VideoDecoder>) -> (frames: Vec<DecodedFrame>)
    ensures
        exists|r: Result<Vec<DecodedFrame>, DecodeError>|
            old(decoder).may_give_out(r) && frames@ == #[trigger] given_out(r),
        frames@.len() == 0 || may_flush(frames@),
        final(decoder).phase() == old(decoder).phase(),
        final(decoder).history() == old(decoder).history(),
{
    frames_given_out(decoder.flush())
}

/// A window on the desktop that it shows does not follow itself: once a move was
/// sent, a mouse that stands where the move put it calls for no other.
pub proof fn law_window_does_not_follow_itself(
    sent: MouseSample,
    position: (i64, i64),
    size: (u32, u32),
    seen: MouseSample,
    expected: (i64, i64),
    threshold: i32,
)
    requires
        expected.0 == seen_from(sent.host_x, position.0, size.0),
        expected.1 == seen_from(sent.host_y, position.1, size.1),
        seen.x_floor == expected.0 && seen.x_ceil == expected.0,
        seen.y_floor == expected.1 && seen.y_ceil == expected.1,
        threshold > 0,
    ensures
        !move_due(seen, Some(expected), threshold),
{
}

/// Seen from a window, a coordinate of the desktop that lies in the window is as far from
/// the window's own as it is on the desktop; any other is at the end of the window that
/// is nearer.
pub proof fn law_places_are_relative_to_the_window(host: i32, origin: i64, size: u32)
    requires
        size > 0,
    ensures
        0 <= seen_from(host, origin, size) < size,
        origin <= host < origin + size ==> origin + seen_from(host, origin, size) == host,
        host < origin ==> seen_from(host, origin, size) == 0,
        host >= origin + size ==> seen_from(host, origin, size) == size - 1,
{
}

/// A move into a window on the desktop that it shows is not sent a second time: once it
/// was injected, the mouse stands on that pixel of the desktop, which is as far from the
/// window's corner as the pixel is, and no move is due.
pub proof fn law_injected_move_is_not_sent_again(
    sent: MouseSample,
    input: WindowInput,
    p: (i64, i64),
    seen: MouseSample,
    threshold: i32,
)
    requires
        is_expected(p, sent, input),
        input.position.0 <= sent.host_x < input.position.0 + input.size.0,
        input.position.1 <= sent.host_y < input.position.1 + input.size.1,
        input.position.0 + seen.x_floor == sent.host_x && seen.x_ceil == seen.x_floor,
        input.position.1 + seen.y_floor == sent.host_y && seen.y_ceil == seen.y_floor,
        threshold > 0,
    ensures
        !move_due(seen, Some(p), threshold),
{
}

/// A move is due exactly if the mouse is at least the threshold away from where it was
/// expected, on either axis; it is sent with the pixel of the desktop that it stands for.
pub proof fn law_moves_are_due_by_distance(
    s: MouseSample,
    p: (i64, i64),
    threshold: i32,
    prev: Option<(i64, i64)>,
)
    ensures
        s.x_floor == s.x_ceil && s.y_floor == s.y_ceil ==> (move_due(s, Some(p), threshold) <==> {
            ||| s.x_floor - p.0 >= threshold
            ||| p.0 - s.x_floor >= threshold
            ||| s.y_floor - p.1 >= threshold
            ||| p.1 - s.y_floor >= threshold
        }),
        move_due(s, None, threshold),
        move_messages(s, prev, threshold).len() == if move_due(s, prev, threshold) {
            1int
        } else {
            0
        },
        forall|k: int|
            0 <= k < move_messages(s, prev, threshold).len() ==> ((#[trigger] move_messages(
                s,
                prev,
                threshold,
            )[k]).kind matches Some(Type::MouseEvent(e)) && e.x == s.host_x && e.y == s.host_y
                && MouseEventType::spec_from_code(e.event_type) == Some(MouseEventType::Move)),
{
}

/// Of the three buttons, each that changed has one message, in their order, which names
/// it and says whether it is down now; those that did not change have none.
pub proof fn law_changed_buttons_are_told(before: [bool; 3], now: [bool; 3])
    ensures
        ({
            let told = button_messages(before, now, 3);
            let changed = |i: int|
                if before[i] != now[i] {
                    1int
                } else {
                    0
                };
            &&& told.len() == changed(0) + changed(1) + changed(2)
            &&& forall|k: int|
                0 <= k < told.len() ==> ((#[trigger] told[k]).kind matches Some(
                    Type::MouseEvent(e),
                ) && 0 <= e.button < 3 && before[e.button as int] != now[e.button as int]
                    && MouseEventType::spec_from_code(e.event_type) == Some(
                    if now[e.button as int] {
                        MouseEventType::ButtonDown
                    } else {
                        MouseEventType::ButtonUp
                    },
                ) && e.x == 0 && e.y == 0 && e.wheel_delta == 0)
            &&& forall|k: int, l: int|
                0 <= k < l < told.len() ==> (#[trigger] told[k]).kind->0->MouseEvent_0.button < (
                #[trigger] told[l]).kind->0->MouseEvent_0.button
        }),
        MouseButton::spec_from_code(0) == Some(MouseButton::Left),
        MouseButton::spec_from_code(1) == Some(MouseButton::Right),
        MouseButton::spec_from_code(2) == Some(MouseButton::Middle),
{
    reveal_with_fuel(button_messages, 4);
}

/// Every key has its own message, in the order of the keys: a row of keys has the
/// messages of its parts, and one key has one message with its code, unless it is no
/// known key.
pub proof fn law_each_key_is_told(a: Seq<Key>, b: Seq<Key>, key: Key, pressed: bool)
    ensures
        key_messages(a + b, pressed) == key_messages(a, pressed) + key_messages(b, pressed),
        key_messages(seq![key], pressed).len() == if key == Key::Unknown {
            0int
        } else {
            1
        },
        key != Key::Unknown ==> (key_messages(seq![key], pressed)[0].kind matches Some(
            Type::KeyEvent(e),
        ) && e.pressed == pressed && Some(e.key_code as i32) == virtual_key(key)),
    decreases b.len(),
{
    reveal_with_fuel(key_messages, 2);
    assert(seq![key].drop_last() =~= Seq::<Key>::empty());
    crate::keymap::law_every_key_has_a_code(key);
    if key != Key::Unknown {
        crate::keymap::law_codes_tell_keys_apart(key, key);
    }
    if b.len() == 0 {
        assert(a + b =~= a);
        assert(key_messages(a, pressed) + key_messages(b, pressed) =~= key_messages(a, pressed));
    } else {
        law_each_key_is_told(a, b.drop_last(), key, pressed);
        assert((a + b).drop_last() =~= a + b.drop_last());
        assert((a + b).last() == b.last());
        assert(key_messages(a + b, pressed) =~= key_messages(a, pressed) + key_messages(
            b,
            pressed,
        ));
    }
}

/// The window shows each pixel of a frame in its place: the pixel in row `row` and column
/// `col` has the red, the green and the blue that the frame has there.
pub proof fn law_window_shows_each_pixel(
    buffer: Seq<u32>,
    frame: DecodedFrame,
    row: int,
    col: int,
)
    requires
        is_whole(frame),
        holds_frame(buffer, frame),
        0 <= row < frame.height,
        0 <= col < frame.width,
    ensures
        ({
            let at = row * frame.width + col;
            &&& 0 <= at < buffer.len()
            &&& buffer[at] / 65_536 == frame.rgb_data@[3 * at]
            &&& buffer[at] / 256 % 256 == frame.rgb_data@[3 * at + 1]
            &&& buffer[at] % 256 == frame.rgb_data@[3 * at + 2]
        }),
{
    let at = row * frame.width + col;
    assert(0 <= at < frame.width * frame.height) by (nonlinear_arith)
        requires
            0 <= row < frame.height,
            0 <= col < frame.width,
            at == row * frame.width + col,
    ;
    law_window_pixels_hold_colours(
        frame.rgb_data@[3 * at],
        frame.rgb_data@[3 * at + 1],
        frame.rgb_data@[3 * at + 2],
    );
}

/// The frames of two rows of answers are those of the first and then those of the second,
/// and so with the failures; one answer holds its own frames, or is one failure.
pub proof fn law_answers_add_up(
    a: Seq<Result<Vec<DecodedFrame>, DecodeError>>,
    b: Seq<Result<Vec<DecodedFrame>, DecodeError>>,
    answer: Result<Vec<DecodedFrame>, DecodeError>,
)
    ensures
        frames_of(a + b) == frames_of(a) + frames_of(b),
        failures_in(a + b) == failures_in(a) + failures_in(b),
        answer matches Ok(frames) ==> frames_of(seq![answer]) == frames@ && failures_in(
            seq![answer],
        ) == 0,
        answer is Err ==> frames_of(seq![answer]).len() == 0 && failures_in(seq![answer]) == 1,
    decreases b.len(),
{
    reveal_with_fuel(frames_of, 2);
    reveal_with_fuel(failures_in, 2);
    assert(seq![answer].drop_last() =~= Seq::<Result<Vec<DecodedFrame>, DecodeError>>::empty());
    assert(frames_of(seq![answer]) =~= given_out(answer));
    if b.len() == 0 {
        assert(a + b =~= a);
        assert(frames_of(a) + frames_of(b) =~= frames_of(a));
    } else {
        law_answers_add_up(a, b.drop_last(), answer);
        assert((a + b).drop_last() =~= a + b.drop_last());
        assert((a + b).last() == b.last());
        assert(frames_of(a + b) =~= frames_of(a) + frames_of(b));
    }
}

/// A session whose requests are all granted registers, asks to be paired with its desktop,
/// asks for a first frame, and receives, in this order.
pub proof fn law_granted_session_receives(
    target: Seq<char>,
    answer: Option<Message>,
    asked: bool,
    p1: SessionPhase,
    s1: SessionStep,
    p2: SessionPhase,
    s2: SessionStep,
    p3: SessionPhase,
    s3: SessionStep,
    p4: SessionPhase,
    s4: SessionStep,
)
    requires
        paired_by(answer) is Ok,
        goes_on(target, SessionPhase::Connecting, SessionEvent::Connected, p1, s1),
        goes_on(target, p1, SessionEvent::Registered, p2, s2),
        goes_on(target, p2, SessionEvent::PairAnswered(answer), p3, s3),
        goes_on(target, p3, SessionEvent::KeyframeAsked(asked), p4, s4),
    ensures
        fits(SessionPhase::Connecting, SessionEvent::Connected),
        fits(p1, SessionEvent::Registered),
        fits(p2, SessionEvent::PairAnswered(answer)),
        fits(p3, SessionEvent::KeyframeAsked(asked)),
        s1.action is Register,
        s2.action matches SessionAction::RequestPairing(m) && (m.kind matches Some(Type::Pair(p))
            && p.target_device_id@ == target),
        s3.action is AskForKeyframe,
        s4.action is Receive,
        p4 == SessionPhase::Receiving,
{
}

/// A session gives up exactly on a failure before it receives, and then nothing more can
/// come; it tells the window of an error exactly on a failure.
pub proof fn law_session_gives_up_on_failures(
    target: Seq<char>,
    before: SessionPhase,
    event: SessionEvent,
    after: SessionPhase,
    step: SessionStep,
    next: SessionEvent,
)
    requires
        fits(before, event),
        goes_on(target, before, event, after, step),
    ensures
        step.action is GiveUp <==> {
            ||| event is ConnectFailed
            ||| event is RegisterFailed
            ||| event is PairFailed
            ||| event matches SessionEvent::PairAnswered(answer) && paired_by(answer) is Err
        },
        step.action is GiveUp ==> !fits(after, next),
        (step.update matches Some(StateUpdate::Error(_))) <==> step.action is GiveUp || event
            is StreamFailed,
{
}

/// A receiving session ends when both messages and datagrams have ended, in either order,
/// and not before.
pub proof fn law_session_ends_with_both(phase: SessionPhase)
    requires
        phase == SessionPhase::Receiving,
    ensures
        without_messages(without_datagrams(phase)) == SessionPhase::Ended,
        without_datagrams(without_messages(phase)) == SessionPhase::Ended,
        without_messages(phase) != SessionPhase::Ended,
        without_datagrams(phase) != SessionPhase::Ended,
        fits(without_messages(phase), SessionEvent::DatagramsEnded),
        fits(without_datagrams(phase), SessionEvent::StreamClosed),
{
}

/// The words for two states differ, and so do the titles; every title begins with the name
/// of the program, and that of an error ends with the error.
pub proof fn law_titles_tell_states_apart(a: ConnectionState, b: ConnectionState, error: Seq<char>)
    ensures
        a != b ==> a.spec_label() != b.spec_label(),
        a != b ==> a.spec_title() != b.spec_title(),
        "MyOwnDesk - "@.is_prefix_of(a.spec_title()),
        error.is_suffix_of(error_title_of(error)),
        "MyOwnDesk - "@.is_prefix_of(error_title_of(error)),
        a.spec_label().is_suffix_of(a.spec_title()),
{
    reveal_strlit("正在连接中继...");
    reveal_strlit("正在注册...");
    reveal_strlit("配对成功，等待视频流...");
    reveal_strlit("接收中");
    reveal_strlit("连接已断开");
    reveal_strlit("错误");
    reveal_strlit("MyOwnDesk - ");
    reveal_strlit("MyOwnDesk - 错误: ");
    assert(a.spec_title().len() == TITLE_PREFIX@.len() + a.spec_label().len());
    assert(b.spec_title().len() == TITLE_PREFIX@.len() + b.spec_label().len());
    let whole = ERROR_TITLE_PREFIX@ + error;
    assert(error =~= whole.subrange(whole.len() - error.len(), whole.len() as int));
    assert("MyOwnDesk - "@ =~= whole.subrange(0, "MyOwnDesk - "@.len() as int));
    let title = TITLE_PREFIX@ + a.spec_label();
    assert("MyOwnDesk - "@ =~= title.subrange(0, "MyOwnDesk - "@.len() as int));
    assert(a.spec_label() =~= title.subrange(
        title.len() - a.spec_label().len(),
        title.len() as int,
    ));
}

/// A session begins by connecting, says so, and keeps the device that it was begun for;
/// nothing but the outcome of connecting can come first.
pub proof fn law_a_session_begins_by_connecting(
    target: String,
    session: Session,
    step: SessionStep,
    event: SessionEvent,
)
    requires
        begins(target, session, step),
    ensures
        step.action is Connect,
        step.update == Some(StateUpdate::State(ConnectionState::Connecting)),
        session.target_device_id == target,
        fits(session.phase, event) <==> event is Connected || event is ConnectFailed,
{
}

/// The window is told how far the session has come: that it registers, that it is paired,
/// that it receives, and that it is disconnected.
pub proof fn law_the_window_is_told_how_far(
    target: Seq<char>,
    before: SessionPhase,
    event: SessionEvent,
    after: SessionPhase,
    step: SessionStep,
)
    requires
        goes_on(target, before, event, after, step),
    ensures
        step.update == Some(StateUpdate::State(ConnectionState::Registering)) <==> event
            is Connected,
        step.update == Some(StateUpdate::State(ConnectionState::Paired)) <==> (event matches
            SessionEvent::PairAnswered(answer) && paired_by(answer) is Ok),
        step.update == Some(StateUpdate::State(ConnectionState::Receiving)) <==> event
            is KeyframeAsked,
        step.update == Some(StateUpdate::State(ConnectionState::Disconnected)) <==> event
            is StreamClosed || event is DatagramsEnded || (event matches SessionEvent::Message(m)
            && (m.kind matches Some(Type::PeerDisconnected(_)))),
{
}

/// The window is told of a failure with the step that failed and with the words that the
/// failure came with.
pub proof fn law_failures_name_their_step(
    target: Seq<char>,
    before: SessionPhase,
    event: SessionEvent,
    after: SessionPhase,
    step: SessionStep,
    e: String,
)
    requires
        goes_on(target, before, event, after, step),
    ensures
        step.update == Some(StateUpdate::Error(SessionError::Connect(e))) <==> event
            == SessionEvent::ConnectFailed(e),
        step.update == Some(StateUpdate::Error(SessionError::Register(e))) <==> event
            == SessionEvent::RegisterFailed(e),
        step.update == Some(StateUpdate::Error(SessionError::Pair(e))) <==> event
            == SessionEvent::PairFailed(e),
        step.update == Some(StateUpdate::Error(SessionError::Receive(e))) <==> event
            == SessionEvent::StreamFailed(e),
        event matches SessionEvent::PairAnswered(answer) ==> (paired_by(answer) matches Err(f)
            ==> step.update == Some(StateUpdate::Error(SessionError::NotPaired(f)))),
{
}

/// Messages that are neither pings nor news of the peer leave a session as it is, and a
/// ping does too but for its answer.
pub proof fn law_other_messages_change_nothing(
    target: Seq<char>,
    before: SessionPhase,
    m: Message,
    after: SessionPhase,
    step: SessionStep,
)
    requires
        goes_on(target, before, SessionEvent::Message(m), after, step),
        !(m.kind matches Some(Type::PeerDisconnected(_))),
    ensures
        after == before,
        step.update is None,
        step.action is Answer <==> (m.kind matches Some(Type::Ping(_))),
        step.action is GoOn <==> !(m.kind matches Some(Type::Ping(_))),
{
}

/// A move over the window is told first, and a turn of the wheel last, with as many
/// notches as it was turned; a wheel that was not turned is not told, and neither is
/// anything that happens beside the window.
pub proof fn law_turns_of_the_wheel_are_told(c: InputCapture, input: WindowInput)
    ensures
        ({
            let told = mouse_messages(c, input);
            &&& input.mouse is None ==> told.len() == 0
            &&& input.mouse matches Some(s) ==> (move_due(s, c.prev_mouse_pos, c.mouse_threshold)
                ==> told.len() > 0 && (told[0].kind matches Some(Type::MouseEvent(e))
                && e.event_type == MouseEventType::Move.spec_code() && e.wheel_delta == 0))
            &&& input.mouse is Some && input.wheel is Some && input.wheel->0 != 0 ==> told.len()
                > 0 && (told.last().kind matches Some(Type::MouseEvent(e)) && e.event_type
                == MouseEventType::Wheel.spec_code() && e.wheel_delta == input.wheel->0 && e.x == 0
                && e.y == 0)
            &&& !(input.wheel is Some && input.wheel->0 != 0) ==> wheel_messages(
                input.wheel,
            ).len() == 0
        }),
{
}

/// What was told of the buttons is not told again: while they stay as they are, the next
/// call has nothing to say of them. Whatever happens beside the window is not remembered.
pub proof fn law_buttons_are_told_once(
    before: InputCapture,
    input: WindowInput,
    after: InputCapture,
    next: WindowInput,
)
    requires
        remembers(before, input, after),
    ensures
        input.mouse is Some && next.buttons@ == input.buttons@ ==> button_messages(
            after.prev_mouse_buttons,
            next.buttons,
            3,
        ).len() == 0,
        input.mouse is None ==> after == before,
        after.mouse_threshold == before.mouse_threshold,
        after.frame_w == before.frame_w && after.frame_h == before.frame_h,
{
    reveal_with_fuel(button_messages, 4);
}

/// The size of the desktop follows the frames: it is that of the last frame that came, and
/// nothing else changes with it.
pub proof fn law_the_size_follows_the_frames(c: InputCapture, w: u32, h: u32)
    ensures
        resized(c, Some((w, h))).frame_w == w,
        resized(c, Some((w, h))).frame_h == h,
        resized(c, None) == c,
        resized(resized(c, Some((w, h))), Some((c.frame_w, c.frame_h))) == c,
{
}

/// Of a row of frames only the last is seen: showing it alone gives the same picture. A
/// frame takes the whole canvas unless it is as large as the one before, which it then
/// covers.
pub proof fn law_only_the_last_frame_is_seen(
    before: Canvas,
    frames: Seq<DecodedFrame>,
    last: DecodedFrame,
    after: Canvas,
    alone: Canvas,
    i: int,
)
    requires
        takes_on(before, frames.push(last), after),
        takes_on(before, seq![last], alone),
        0 <= i < last.width * last.height,
    ensures
        after.shown == Some((last.width, last.height)),
        after.shown == alone.shown,
        after.last_frame_size == (last.width, last.height),
        after.buffer@.len() == alone.buffer@.len(),
        after.buffer@.len() >= last.width * last.height,
        after.buffer@[i] == alone.buffer@[i],
        before.last_frame_size != (last.width, last.height) ==> after.buffer@.len() == last.width
            * last.height,
{
}

/// The first place of the mouse is told wherever it is, and of the buttons those that are
/// down; from then on two pixels make a move. The desktop is taken for 1920 by 1080 pixels
/// until a frame comes.
pub proof fn law_the_first_place_is_told(c: InputCapture, s: MouseSample, now: [bool; 3])
    requires
        has_seen_nothing(c),
    ensures
        move_due(s, c.prev_mouse_pos, c.mouse_threshold),
        c.mouse_threshold == 2,
        c.frame_w == 1_920 && c.frame_h == 1_080,
        button_messages(c.prev_mouse_buttons, now, 3).len() == (if now[0] {
            1int
        } else {
            0
        }) + (if now[1] {
            1int
        } else {
            0
        }) + (if now[2] {
            1int
        } else {
            0
        }),
{
    reveal_with_fuel(button_messages, 4);
    let before = c.prev_mouse_buttons;
    assert(before@[0] == false && before@[1] == false && before@[2] == false);
    assert(before[0] == false && before[1] == false && before[2] == false);
}

/// A canvas that has shown nothing is black; the first frame gives it its own size, and no
/// frames leave it black.
pub proof fn law_a_new_canvas_is_black(
    c: Canvas,
    i: int,
    frame: DecodedFrame,
    after: Canvas,
    unchanged: Canvas,
)
    requires
        is_black(c),
        0 <= i < 1_920 * 1_080,
        frame.width > 0 && frame.height > 0,
        takes_on(c, seq![frame], after),
        takes_on(c, Seq::empty(), unchanged),
    ensures
        c.buffer@.len() == 1_920 * 1_080,
        c.buffer@[i] == 0,
        c.shown is None,
        after.buffer@.len() == frame.width * frame.height,
        unchanged == c,
{
}

/// Every request of a session may be granted or fail, and nothing else can come while it
/// is waited for; a receiving session takes whatever a connection brings.
pub proof fn law_outcomes_fit_their_request(phase: SessionPhase, event: SessionEvent)
    ensures
        event is Connected || event is ConnectFailed ==> (fits(phase, event) <==> phase
            == SessionPhase::Connecting),
        event is Registered || event is RegisterFailed ==> (fits(phase, event) <==> phase
            == SessionPhase::Registering),
        event is PairAnswered || event is PairFailed ==> (fits(phase, event) <==> phase
            == SessionPhase::Pairing),
        event is KeyframeAsked ==> (fits(phase, event) <==> phase == SessionPhase::Asking),
        event is Message || event is StreamClosed || event is StreamFailed ==> (fits(phase, event)
            <==> phase == SessionPhase::Receiving || phase == SessionPhase::Listening),
        event is DatagramsEnded ==> (fits(phase, event) <==> phase == SessionPhase::Receiving
            || phase == SessionPhase::Draining),
{
}

/// A decoder is asked for every unit of a batch, once and in order: for two batches, one
/// after the other, as for one of both. Each unit has one answer.
pub proof fn law_every_unit_is_asked_for_once(
    before: Seq<Decoding>,
    first: Seq<Vec<u8>>,
    between: Seq<Decoding>,
    second: Seq<Vec<u8>>,
    after: Seq<Decoding>,
    k: int,
)
    requires
        asked_for(before, first, between),
        asked_for(between, second, after),
        0 <= k < first.len() + second.len(),
    ensures
        asked_for(before, first + second, after),
        after[before.len() + k].data == (first + second)[k]@,
        answers_since(before, after).len() == first.len() + second.len(),
        answers_since(before, after)[k] == after[before.len() + k].answer,
        answers_since(before, after) == answers_since(before, between) + answers_since(
            between,
            after,
        ),
{
    let batch = first + second;
    assert(after.take(before.len() as int) =~= after.take(between.len() as int).take(
        before.len() as int,
    ));
    assert forall|j: int| 0 <= j < batch.len() implies #[trigger] after[before.len() + j].data
        == batch[j]@ by {
        if j < first.len() {
            assert(after[before.len() + j] == after.take(between.len() as int)[before.len() + j]);
            assert(between[before.len() + j].data == first[j]@);
        } else {
            let i = j - first.len();
            assert(after[between.len() + i].data == second[i]@);
        }
    }
    assert forall|j: int| 0 <= j < first.len() implies answers_since(before, after)[j]
        == #[trigger] answers_since(before, between)[j] by {
        assert(after[before.len() + j] == after.take(between.len() as int)[before.len() + j]);
    }
    assert(answers_since(before, after) =~= answers_since(before, between) + answers_since(
        between,
        after,
    ));
}

} // verus!
