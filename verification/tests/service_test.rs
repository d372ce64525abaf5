use myowndesk::capture::{
    choose_output, pace, CaptureError, CaptureEvent, CaptureLoop, CaptureOutcome, CaptureStage,
    CaptureStep, CapturedFrame, LoopStep, Output, Pace, ScreenDuplicator,
};
use myowndesk::crypto::{FrameCipher, NoOpCipher};
use myowndesk::fragment::{FrameFragmenter, NoOpFragmenter};
use myowndesk::hex_text::HexError;
use myowndesk::input::{DesktopInput, InputRecord};
use myowndesk::message::{
    DeviceList, ErrorCode, KeyEvent, KeyFrameRequest, Message, MouseEvent, PeerDisconnected, Ping,
    RegisterResponse, Type,
};
use myowndesk::net::{
    build_pong, keyframe_request, pair_request, register_outcome, Identity, RequestError,
};
use myowndesk::relay::RelayState;
use myowndesk::server::{greet, Admission, FirstEvent};
use myowndesk::service::{
    handle_control_message, on_link_event, EncodeEvent, EncodeStep, EncodeTask, HostAction,
    LinkEvent, LinkStep,
};

fn captured(width: u32, height: u32, pixels: bool) -> CapturedFrame {
    let len = if pixels { (width * height * 4) as usize } else { 0 };
    CapturedFrame { cpu_buffer: vec![50; len], display_index: 0, timestamp: 0, width, height }
}

#[test]
fn nothing_is_encoded_before_a_viewer_asks() {
    let mut task = EncodeTask::new();
    assert!(task.can_take(&captured(63, 64, true)));
    assert!(matches!(
        task.on_event(EncodeEvent::Captured(captured(64, 64, true))),
        EncodeStep::Continue
    ));
    assert!(matches!(task.on_event(EncodeEvent::CaptureEnded), EncodeStep::Continue));
    assert!(matches!(task.on_event(EncodeEvent::AllEnded), EncodeStep::Stop));
}

#[test]
fn frames_are_encoded_for_a_viewer() {
    let mut task = EncodeTask::new();
    assert!(matches!(task.on_event(EncodeEvent::KeyframeWanted), EncodeStep::Continue));
    assert!(!task.can_take(&captured(63, 64, true)));
    assert!(task.can_take(&captured(64, 64, true)));
    assert!(matches!(
        task.on_event(EncodeEvent::Captured(captured(64, 64, false))),
        EncodeStep::Continue
    ));
    match task.on_event(EncodeEvent::Captured(captured(64, 64, true))) {
        EncodeStep::Send(frames) => {
            assert_eq!(frames.len(), 1);
            assert_eq!((frames[0].width, frames[0].height), (64, 64));
            assert_eq!(frames[0].pts, 16);
        }
        _ => panic!("the frame has to be encoded"),
    }
    assert!(matches!(task.on_event(EncodeEvent::KeyframeWanted), EncodeStep::Continue));
    match task.on_event(EncodeEvent::Captured(captured(3842, 2, true))) {
        EncodeStep::FrameFailed(_) => {}
        _ => panic!("no such picture can be encoded"),
    }
    assert!(matches!(task.on_event(EncodeEvent::CaptureEnded), EncodeStep::Stop));
}

fn act(kind: Option<Type>) -> HostAction {
    let mut input = DesktopInput::new(1920, 1080);
    handle_control_message(Message { kind }, &mut input)
}

fn record(kind: Type) -> InputRecord {
    match act(Some(kind)) {
        HostAction::Inject(r) => r,
        _ => panic!("input has to be injected"),
    }
}

fn mouse(event_type: i32, button: i32) -> Type {
    Type::MouseEvent(MouseEvent { event_type, x: 1920, y: 0, button, wheel_delta: 2 })
}

#[test]
fn control_messages_are_acted_on() {
    assert!(matches!(
        act(Some(Type::KeyFrameRequest(KeyFrameRequest { display_index: 0 }))),
        HostAction::WantKeyframe
    ));
    let gone = PeerDisconnected { reason: "对端离线".to_string() };
    assert!(
        matches!(act(Some(Type::PeerDisconnected(gone))), HostAction::PeerGone(r) if r == "对端离线")
    );
    match act(Some(Type::Ping(Ping { timestamp_ms: 3 }))) {
        HostAction::Answer(m) => assert!(matches!(m.kind, Some(Type::Pong(p)) if p.timestamp_ms == 3)),
        _ => panic!("a ping has to be answered"),
    }
    let list = DeviceList { device_ids: Vec::new() };
    assert!(matches!(act(Some(Type::DeviceList(list))), HostAction::Ignore));
    assert!(matches!(act(None), HostAction::Ignore));
}

#[test]
fn input_messages_are_injected() {
    assert_eq!(
        record(Type::KeyEvent(KeyEvent { key_code: 0x41, pressed: false })),
        InputRecord::Key { virtual_key: 0x41, scan_code: 0, flags: 10 }
    );
    assert_eq!(
        record(Type::KeyEvent(KeyEvent { key_code: 0xffff_0041, pressed: true })),
        InputRecord::Key { virtual_key: 0x41, scan_code: 0, flags: 8 }
    );
    let moved = InputRecord::Mouse { dx: 65535, dy: 0, mouse_data: 0, flags: 0x8001 };
    assert_eq!(record(mouse(0, 0)), moved);
    assert_eq!(record(mouse(77, 0)), moved);
    let button = |flags: u32| InputRecord::Mouse { dx: 0, dy: 0, mouse_data: 0, flags };
    assert_eq!(record(mouse(1, 0)), button(2));
    assert_eq!(record(mouse(2, 1)), button(16));
    assert_eq!(record(mouse(1, 2)), button(32));
    assert_eq!(record(mouse(2, 99)), button(4));
    assert_eq!(
        record(mouse(3, 0)),
        InputRecord::Mouse { dx: 0, dy: 0, mouse_data: 240, flags: 2048 }
    );
}

#[test]
fn the_service_stops_when_the_link_ends() {
    let mut input = DesktopInput::new(1920, 1080);
    assert!(matches!(on_link_event(LinkEvent::Closed, &mut input), LinkStep::Stop));
    assert!(matches!(on_link_event(LinkEvent::Failed, &mut input), LinkStep::Stop));
    assert!(matches!(
        on_link_event(LinkEvent::Message(keyframe_request()), &mut input),
        LinkStep::Do(HostAction::WantKeyframe)
    ));
}

fn output(attached: bool, left: i32, top: i32, right: i32, bottom: i32) -> Output {
    Output { attached, left, top, right, bottom }
}

#[test]
fn the_first_attached_display_is_chosen() {
    assert_eq!(choose_output(&vec![false, true, true]), Some(1));
    assert_eq!(choose_output(&vec![false, false]), None);
    assert_eq!(choose_output(&Vec::new()), None);
}

#[test]
fn a_display_has_to_show_a_desktop() {
    let off = output(false, 0, 0, 1024, 768);
    assert!(matches!(ScreenDuplicator::new(&vec![off]), Err(CaptureError::NotAttached)));
    assert!(matches!(ScreenDuplicator::new(&Vec::new()), Err(CaptureError::NotAttached)));
    let on = output(true, -1920, 0, 0, 1080);
    let d = ScreenDuplicator::new(&vec![off, on, output(true, 0, 0, 2, 2)]).unwrap();
    assert_eq!(d.output, 1);
    assert_eq!((d.width, d.height), (1920, 1080));
    assert_eq!(d.readback_len(7680), 7680 * 1080);
}

#[test]
fn a_frame_is_captured_step_by_step() {
    let mut d = ScreenDuplicator::new(&vec![output(true, 0, 0, 2, 1)]).unwrap();
    assert!(matches!(d.acquire_frame(CaptureEvent::Acquired, 0), CaptureStep::Copy));
    assert!(matches!(d.acquire_frame(CaptureEvent::Copied, 0), CaptureStep::Read));
    let pixels = vec![1, 2, 3, 4, 5, 6, 7, 8];
    assert!(matches!(
        d.acquire_frame(CaptureEvent::Mapped(pixels.clone()), 0),
        CaptureStep::Release
    ));
    match d.acquire_frame(CaptureEvent::Released, 17) {
        CaptureStep::Done(Some(frame)) => {
            assert_eq!(frame.cpu_buffer, pixels);
            assert_eq!((frame.width, frame.height), (2, 1));
            assert_eq!((frame.display_index, frame.timestamp), (0, 17));
        }
        _ => panic!("the frame is complete"),
    }
    assert!(matches!(d.stage, CaptureStage::Finished));
    d.begin();
    assert!(matches!(d.stage, CaptureStage::Acquiring));
}

#[test]
fn a_frame_without_pixels_is_still_a_frame() {
    let mut d = ScreenDuplicator { output: 0, width: 2, height: 1, stage: CaptureStage::Mapping };
    assert!(matches!(d.acquire_frame(CaptureEvent::MapFailed, 0), CaptureStep::Release));
    match d.acquire_frame(CaptureEvent::Released, 0) {
        CaptureStep::Done(Some(frame)) => assert!(frame.cpu_buffer.is_empty()),
        _ => panic!("the frame is complete"),
    }
}

#[test]
fn capturing_can_fail_at_every_step() {
    let at = |stage: CaptureStage| ScreenDuplicator { output: 0, width: 2, height: 1, stage };
    assert!(matches!(
        at(CaptureStage::Acquiring).acquire_frame(CaptureEvent::TimedOut, 0),
        CaptureStep::Done(None)
    ));
    assert!(matches!(
        at(CaptureStage::Acquiring).acquire_frame(CaptureEvent::AcquireFailed, 0),
        CaptureStep::Failed(CaptureError::Acquire)
    ));
    assert!(matches!(
        at(CaptureStage::Copying).acquire_frame(CaptureEvent::NoResource, 0),
        CaptureStep::Failed(CaptureError::NoResource)
    ));
    assert!(matches!(
        at(CaptureStage::Copying).acquire_frame(CaptureEvent::CastFailed, 0),
        CaptureStep::Failed(CaptureError::Cast)
    ));
    assert!(matches!(
        at(CaptureStage::Releasing(vec![1])).acquire_frame(CaptureEvent::ReleaseFailed, 0),
        CaptureStep::Failed(CaptureError::Release)
    ));
}

#[test]
fn four_failures_in_a_row_ask_for_a_new_set_up() {
    let mut l = CaptureLoop::start();
    for _ in 0..3 {
        assert!(matches!(l.on_outcome(CaptureOutcome::Failed), LoopStep::Continue));
    }
    assert!(matches!(l.on_outcome(CaptureOutcome::NoFrame), LoopStep::Continue));
    assert!(matches!(l.on_outcome(CaptureOutcome::Failed), LoopStep::Recreate));
    assert!(l.on_recreated(true));
    assert_eq!(l.consecutive_failures, 0);
    l.on_outcome(CaptureOutcome::Failed);
    match l.on_outcome(CaptureOutcome::Frame(captured(2, 2, true))) {
        LoopStep::Offer(frame) => assert_eq!(frame.cpu_buffer.len(), 16),
        _ => panic!("a frame has to be offered"),
    }
    assert_eq!(l.consecutive_failures, 0);
    assert!(!l.on_recreated(false));
}

#[test]
fn the_loop_keeps_sixty_frames_per_second() {
    assert_eq!(pace(0), Pace::Sleep(16_667_000));
    assert_eq!(pace(16_666_999), Pace::Sleep(1));
    assert_eq!(pace(16_667_000), Pace::Late);
    assert_eq!(pace(200_000_000), Pace::Late);
    assert_eq!(pace(200_000_001), Pace::Slow);
}

#[test]
fn a_client_with_the_relays_key_is_let_in() {
    let identity = Identity::new("van-pc", "00ff10").unwrap();
    assert_eq!(identity.pre_shared_key, vec![0x00, 0xff, 0x10]);
    let request = identity.register_request();
    match &request.kind {
        Some(Type::Register(r)) => {
            assert_eq!(r.device_id, "van-pc");
            assert_eq!(r.protocol_version, 1);
            assert_eq!(r.auth_token.len(), 32);
        }
        _ => panic!("期望 Register"),
    }
    let mut relay: RelayState<u8> = RelayState::new(vec![0x00, 0xff, 0x10]);
    assert!(matches!(
        greet(&mut relay, FirstEvent::Message(request), 0, 0),
        Admission::Accepted { .. }
    ));
    let mut other: RelayState<u8> = RelayState::new(vec![1]);
    let request = identity.register_request();
    assert!(matches!(
        greet(&mut other, FirstEvent::Message(request), 0, 0),
        Admission::Refused(_)
    ));
    assert_eq!(Identity::new("a", "0").err(), Some(HexError::OddLength));
}

#[test]
fn a_registration_can_be_refused() {
    let answer = |error_code: i32| {
        Some(Message {
            kind: Some(Type::RegisterResponse(RegisterResponse {
                error_code,
                error_message: "认证失败".to_string(),
                online_devices: vec!["a".to_string()],
            })),
        })
    };
    assert_eq!(
        register_outcome(answer(ErrorCode::Success.code())).unwrap(),
        vec!["a".to_string()]
    );
    match register_outcome(answer(ErrorCode::AuthFailed.code())) {
        Err(RequestError::Refused { message, code }) => {
            assert_eq!((message.as_str(), code), ("认证失败", 1))
        }
        _ => panic!("the registration was refused"),
    }
    assert!(matches!(register_outcome(None), Err(RequestError::Malformed(None))));
    assert!(matches!(
        register_outcome(Some(keyframe_request())),
        Err(RequestError::Malformed(Some(_)))
    ));
}

#[test]
fn requests_name_their_target() {
    match pair_request("van-pc").kind {
        Some(Type::Pair(p)) => assert_eq!(p.target_device_id, "van-pc"),
        _ => panic!("期望 Pair"),
    }
    match build_pong(&Ping { timestamp_ms: -4 }).kind {
        Some(Type::Pong(p)) => assert_eq!(p.timestamp_ms, -4),
        _ => panic!("期望 Pong"),
    }
}

#[test]
fn decryption_undoes_encryption() {
    let cipher = NoOpCipher;
    let sealed = cipher.encrypt(b"frame").unwrap();
    assert_eq!(sealed, b"frame".to_vec());
    assert_eq!(cipher.decrypt(&sealed).unwrap(), b"frame".to_vec());
}

#[test]
fn fragments_bring_the_data_back() {
    let fragmenter = NoOpFragmenter;
    let fragments = fragmenter.fragment(b"frame", 2);
    assert_eq!(fragments, vec![b"frame".to_vec()]);
    assert_eq!(fragmenter.reassemble(1, 0, 1, &fragments[0]), Some(b"frame".to_vec()));
}
