use myowndesk::decoder::{create_best_decoder, DecodeError, DecodedFrame};
use myowndesk::gui::{
    build_key_event, build_mouse_event, decode_batch, drain, error_title, frames_given_out, gather,
    Canvas, ConnectionState, InputCapture, MouseSample, Session, SessionAction, SessionError,
    SessionEvent, SessionPhase, StateUpdate, WindowInput, INITIAL_TITLE,
};
use myowndesk::keymap::Key;
use myowndesk::message::{
    ErrorCode, FrameType, KeyEvent, Message, MouseButton, MouseEvent, MouseEventType,
    PairResponse, PeerDisconnected, Ping, Type,
};
use myowndesk::net::RequestError;

fn mouse_event(message: &Message) -> MouseEvent {
    match message.kind {
        Some(Type::MouseEvent(me)) => me,
        _ => panic!("期望 MouseEvent"),
    }
}

fn key_event(message: &Message) -> KeyEvent {
    match message.kind {
        Some(Type::KeyEvent(ke)) => ke,
        _ => panic!("期望 KeyEvent"),
    }
}

#[test]
fn test_build_mouse_move_event() {
    let msg = build_mouse_event(MouseEventType::Move, 960, 540, MouseButton::Left, 0);
    let me = mouse_event(&msg);
    assert_eq!(me.event_type, MouseEventType::Move.code());
    assert_eq!(me.x, 960);
    assert_eq!(me.y, 540);
}

#[test]
fn test_build_mouse_wheel_event() {
    let msg = build_mouse_event(MouseEventType::Wheel, 0, 0, MouseButton::Left, 120);
    assert_eq!(mouse_event(&msg).wheel_delta, 120);
}

#[test]
fn test_build_key_press() {
    let msg = build_key_event(0x41, true);
    let ke = key_event(&msg);
    assert_eq!(ke.key_code, 0x41);
    assert!(ke.pressed);
}

#[test]
fn test_build_key_release() {
    let msg = build_key_event(0x1B, false);
    let ke = key_event(&msg);
    assert_eq!(ke.key_code, 0x1B);
    assert!(!ke.pressed);
}

#[test]
fn test_input_capture_new() {
    let ic = InputCapture::new();
    assert_eq!(ic.mouse_threshold as f32, 2.0);
    assert!(ic.prev_mouse_pos.is_none());
    assert_eq!(ic.prev_mouse_buttons, [false, false, false]);
    assert_eq!(ic.frame_w, 1920);
    assert_eq!(ic.frame_h, 1080);
}

#[test]
fn test_input_capture_updates_frame_size() {
    let mut ic = InputCapture::new();
    ic.resize(Some((1280, 720)));
    assert_eq!(ic.frame_w, 1280);
    assert_eq!(ic.frame_h, 720);
    ic.resize(None);
    assert_eq!(ic.frame_w, 1280);
}

fn idle() -> WindowInput {
    WindowInput {
        mouse: None,
        buttons: [false, false, false],
        wheel: None,
        pressed: Vec::new(),
        released: Vec::new(),
        position: (0, 0),
        size: (1920, 1080),
    }
}

fn mouse_at(x: i32, y: i32) -> Option<MouseSample> {
    Some(MouseSample { x_floor: x, x_ceil: x, y_floor: y, y_ceil: y, host_x: x, host_y: y })
}

#[test]
fn small_moves_are_not_sent() {
    let mut ic = InputCapture::new();
    let mut input = idle();
    input.mouse = mouse_at(100, 200);
    let events = ic.poll(&input);
    assert_eq!(events.len(), 1);
    let me = mouse_event(&events[0]);
    assert_eq!((me.event_type, me.x, me.y, me.button, me.wheel_delta), (0, 100, 200, 0, 0));
    assert_eq!(ic.prev_mouse_pos, Some((100, 200)));
    input.mouse = mouse_at(101, 199);
    assert!(ic.poll(&input).is_empty());
    input.mouse = mouse_at(102, 200);
    assert_eq!(ic.poll(&input).len(), 1);
    input.mouse = mouse_at(102, 198);
    assert_eq!(ic.poll(&input).len(), 1);
    // Between two pixels, the move is two pixels long only if all of it is.
    input.mouse =
        Some(MouseSample { x_floor: 103, x_ceil: 104, y_floor: 198, y_ceil: 198, host_x: 0, host_y: 0 });
    assert!(ic.poll(&input).is_empty());
}

#[test]
fn the_mouse_is_expected_where_it_was_sent() {
    let mut ic = InputCapture::new();
    let mut input = idle();
    input.position = (50, -10);
    input.size = (640, 480);
    input.mouse =
        Some(MouseSample { x_floor: 10, x_ceil: 10, y_floor: 20, y_ceil: 20, host_x: 30, host_y: 60 });
    ic.poll(&input);
    assert_eq!(ic.prev_mouse_pos, Some((0, 70)));
    input.mouse =
        Some(MouseSample { x_floor: 9, x_ceil: 9, y_floor: 20, y_ceil: 20, host_x: 5000, host_y: 60 });
    ic.poll(&input);
    assert_eq!(ic.prev_mouse_pos, Some((639, 70)));
    input.size = (0, 0);
    input.mouse = mouse_at(0, 0);
    ic.poll(&input);
    assert_eq!(ic.prev_mouse_pos, Some((0, 0)));
}

#[test]
fn buttons_and_wheel_are_sent_when_they_change() {
    let mut ic = InputCapture::new();
    let mut input = idle();
    input.mouse = mouse_at(1, 1);
    ic.poll(&input);
    input.buttons = [true, false, true];
    input.wheel = Some(-3);
    let events = ic.poll(&input);
    let kinds: Vec<(i32, i32, i32)> = events
        .iter()
        .map(mouse_event)
        .map(|e| (e.event_type, e.button, e.wheel_delta))
        .collect();
    assert_eq!(kinds, vec![(1, 0, 0), (1, 2, 0), (3, 0, -3)]);
    input.wheel = Some(0);
    assert!(ic.poll(&input).is_empty());
    input.buttons = [false, true, true];
    let events = ic.poll(&input);
    let kinds: Vec<(i32, i32)> =
        events.iter().map(mouse_event).map(|e| (e.event_type, e.button)).collect();
    assert_eq!(kinds, vec![(2, 0), (1, 1)]);
}

#[test]
fn without_a_mouse_only_keys_are_sent() {
    let mut ic = InputCapture::new();
    let mut input = idle();
    input.buttons = [true, true, true];
    input.wheel = Some(5);
    input.pressed = vec![Key::A, Key::Unknown, Key::LeftCtrl];
    input.released = vec![Key::Escape];
    let events = ic.poll(&input);
    let keys: Vec<(u32, bool)> =
        events.iter().map(key_event).map(|e| (e.key_code, e.pressed)).collect();
    assert_eq!(keys, vec![(0x41, true), (0xA2, true), (0x1B, false)]);
    assert_eq!(ic.prev_mouse_buttons, [false, false, false]);
}

#[test]
fn states_have_titles() {
    for (state, title) in [
        (ConnectionState::Connecting, "MyOwnDesk - 正在连接中继..."),
        (ConnectionState::Registering, "MyOwnDesk - 正在注册..."),
        (ConnectionState::Paired, "MyOwnDesk - 配对成功，等待视频流..."),
        (ConnectionState::Receiving, "MyOwnDesk - 接收中"),
        (ConnectionState::Disconnected, "MyOwnDesk - 连接已断开"),
        (ConnectionState::Error, "MyOwnDesk - 错误"),
    ] {
        assert_eq!(state.title(), title);
    }
    assert_eq!(error_title("x"), "MyOwnDesk - 错误: x");
    assert_eq!(INITIAL_TITLE, "MyOwnDesk - 等待连接...");
}

fn state_of(update: Option<StateUpdate>) -> Option<ConnectionState> {
    match update {
        Some(StateUpdate::State(s)) => Some(s),
        _ => None,
    }
}

fn pair_response(code: ErrorCode) -> Option<Message> {
    Some(Message {
        kind: Some(Type::PairResponse(PairResponse {
            error_code: code.code(),
            error_message: "设备已配对".to_string(),
        })),
    })
}

#[test]
fn a_session_gets_to_its_desktop() {
    let (mut session, step) = Session::begin("van-pc".to_string());
    assert_eq!(state_of(step.update), Some(ConnectionState::Connecting));
    assert!(matches!(step.action, SessionAction::Connect));
    let step = session.step(SessionEvent::Connected);
    assert_eq!(state_of(step.update), Some(ConnectionState::Registering));
    assert!(matches!(step.action, SessionAction::Register));
    let step = session.step(SessionEvent::Registered);
    assert!(step.update.is_none());
    match step.action {
        SessionAction::RequestPairing(m) => match m.kind {
            Some(Type::Pair(p)) => assert_eq!(p.target_device_id, "van-pc"),
            _ => panic!("期望 Pair"),
        },
        _ => panic!("期望 Pair"),
    }
    let step = session.step(SessionEvent::PairAnswered(pair_response(ErrorCode::Success)));
    assert_eq!(state_of(step.update), Some(ConnectionState::Paired));
    match step.action {
        SessionAction::AskForKeyframe(m) => match m.kind {
            Some(Type::KeyFrameRequest(k)) => assert_eq!(k.display_index, 0),
            _ => panic!("期望 KeyFrameRequest"),
        },
        _ => panic!("期望 KeyFrameRequest"),
    }
    let step = session.step(SessionEvent::KeyframeAsked(false));
    assert_eq!(state_of(step.update), Some(ConnectionState::Receiving));
    assert!(matches!(step.action, SessionAction::Receive));
    let ping = Message { kind: Some(Type::Ping(Ping { timestamp_ms: 9 })) };
    match session.step(SessionEvent::Message(ping)).action {
        SessionAction::Answer(m) => match m.kind {
            Some(Type::Pong(p)) => assert_eq!(p.timestamp_ms, 9),
            _ => panic!("期望 Pong"),
        },
        _ => panic!("期望 Pong"),
    }
    let step = session.step(SessionEvent::Message(Message { kind: None }));
    assert!(step.update.is_none() && matches!(step.action, SessionAction::GoOn));
    let gone = PeerDisconnected { reason: "对端离线".to_string() };
    let step = session
        .step(SessionEvent::Message(Message { kind: Some(Type::PeerDisconnected(gone)) }));
    assert_eq!(state_of(step.update), Some(ConnectionState::Disconnected));
    assert!(matches!(step.action, SessionAction::StopMessages));
    assert_eq!(session.phase, SessionPhase::Draining);
    let step = session.step(SessionEvent::DatagramsEnded);
    assert_eq!(state_of(step.update), Some(ConnectionState::Disconnected));
    assert_eq!(session.phase, SessionPhase::Ended);
}

fn session_at(phase: SessionPhase) -> Session {
    Session { target_device_id: "van-pc".to_string(), phase }
}

#[test]
fn a_session_gives_up_on_failures() {
    let step = session_at(SessionPhase::Connecting)
        .step(SessionEvent::ConnectFailed("a".to_string()));
    assert!(matches!(step.action, SessionAction::GiveUp));
    assert!(
        matches!(step.update, Some(StateUpdate::Error(SessionError::Connect(e))) if e == "a")
    );
    let step = session_at(SessionPhase::Registering)
        .step(SessionEvent::RegisterFailed("b".to_string()));
    assert!(
        matches!(step.update, Some(StateUpdate::Error(SessionError::Register(e))) if e == "b")
    );
    let step = session_at(SessionPhase::Pairing).step(SessionEvent::PairFailed("c".to_string()));
    assert!(matches!(step.update, Some(StateUpdate::Error(SessionError::Pair(e))) if e == "c"));
    let step = session_at(SessionPhase::Pairing)
        .step(SessionEvent::PairAnswered(pair_response(ErrorCode::AlreadyPaired)));
    match step.update {
        Some(StateUpdate::Error(SessionError::NotPaired(RequestError::Refused {
            message,
            code,
        }))) => assert_eq!((message.as_str(), code), ("设备已配对", 3)),
        _ => panic!("the pairing was refused"),
    }
    let step = session_at(SessionPhase::Pairing).step(SessionEvent::PairAnswered(None));
    assert!(matches!(
        step.update,
        Some(StateUpdate::Error(SessionError::NotPaired(RequestError::NoAnswer)))
    ));
    let step = session_at(SessionPhase::Pairing)
        .step(SessionEvent::PairAnswered(Some(Message { kind: None })));
    assert!(matches!(
        step.update,
        Some(StateUpdate::Error(SessionError::NotPaired(RequestError::Malformed(None))))
    ));
}

#[test]
fn a_receiving_session_hears_of_its_end() {
    let step = session_at(SessionPhase::Receiving).step(SessionEvent::StreamClosed);
    assert_eq!(state_of(step.update), Some(ConnectionState::Disconnected));
    let step = session_at(SessionPhase::Receiving)
        .step(SessionEvent::StreamFailed("d".to_string()));
    assert!(
        matches!(step.update, Some(StateUpdate::Error(SessionError::Receive(e))) if e == "d")
    );
    let mut session = session_at(SessionPhase::Receiving);
    session.step(SessionEvent::DatagramsEnded);
    assert_eq!(session.phase, SessionPhase::Listening);
    session.step(SessionEvent::StreamClosed);
    assert_eq!(session.phase, SessionPhase::Ended);
}

fn decoded(width: u32, height: u32, rgb_data: Vec<u8>) -> DecodedFrame {
    DecodedFrame { rgb_data, width, height, display_index: 0, frame_type: FrameType::Delta }
}

#[test]
fn a_canvas_shows_the_last_frame() {
    let mut canvas = Canvas::new();
    assert_eq!(canvas.buffer.len(), 1920 * 1080);
    assert!(canvas.shown.is_none());
    canvas.show(&Vec::new());
    assert!(canvas.shown.is_none());
    canvas.show(&vec![decoded(1, 1, vec![9; 3]), decoded(2, 1, vec![1, 2, 3, 4, 5, 6])]);
    assert_eq!(canvas.shown, Some((2, 1)));
    assert_eq!(canvas.buffer, vec![0x010203, 0x040506]);
    canvas.show(&vec![decoded(2, 1, vec![7; 6])]);
    assert_eq!(canvas.buffer, vec![0x070707, 0x070707]);
    canvas.show(&vec![decoded(1, 3, vec![1; 9])]);
    assert_eq!(canvas.buffer.len(), 3);
}

#[test]
fn a_batch_skips_what_cannot_be_decoded() {
    let mut decoder = create_best_decoder().unwrap();
    let batch = vec![vec![0, 0, 0, 1, 0x41, 1], Vec::new(), vec![0, 0, 0, 1, 0x65, 0xff, 0xff]];
    let (frames, failures) = decode_batch(&mut decoder, &batch);
    assert!(frames.is_empty());
    assert_eq!(failures, 1);
    assert!(drain(&mut decoder).is_empty());
}

#[test]
fn codes_read_back() {
    for t in [
        MouseEventType::Move,
        MouseEventType::ButtonDown,
        MouseEventType::ButtonUp,
        MouseEventType::Wheel,
    ] {
        assert_eq!(MouseEventType::from_code(t.code()), Some(t));
    }
    for b in [MouseButton::Left, MouseButton::Right, MouseButton::Middle] {
        assert_eq!(MouseButton::from_code(b.code()), Some(b));
    }
    assert_eq!(MouseEventType::from_code(99), None);
    assert_eq!(MouseButton::from_code(-1), None);
}

#[test]
fn a_window_does_not_follow_itself() {
    let mut ic = InputCapture::new();
    let mut input = idle();
    input.position = (100, 100);
    input.size = (640, 480);
    input.mouse = Some(MouseSample {
        x_floor: 10,
        x_ceil: 10,
        y_floor: 20,
        y_ceil: 20,
        host_x: 300,
        host_y: 400,
    });
    assert_eq!(ic.poll(&input).len(), 1);
    input.mouse = mouse_at(200, 300);
    assert!(ic.poll(&input).is_empty());
}

#[test]
fn what_cannot_be_given_out_is_nothing() {
    let held = vec![decoded(1, 1, vec![1, 2, 3]), decoded(1, 1, vec![4, 5, 6])];
    let frames = frames_given_out(Ok(held));
    assert_eq!(frames.len(), 2);
    assert_eq!(frames[1].rgb_data, vec![4, 5, 6]);
    assert!(frames_given_out(Err(DecodeError::BadPicture)).is_empty());
}

#[test]
fn answers_are_gathered_in_order() {
    let answers = vec![
        Ok(vec![decoded(1, 1, vec![1, 2, 3])]),
        Err(DecodeError::BadPicture),
        Ok(Vec::new()),
        Ok(vec![decoded(1, 1, vec![4, 5, 6]), decoded(1, 1, vec![7, 8, 9])]),
        Err(DecodeError::BadPicture),
    ];
    let (frames, failures) = gather(answers);
    let pixels: Vec<u8> = frames.iter().map(|f| f.rgb_data[0]).collect();
    assert_eq!(pixels, vec![1, 4, 7]);
    assert_eq!(failures, 2);
}
