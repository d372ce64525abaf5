use myowndesk::auth;
use myowndesk::frame::encode_frame;
use myowndesk::message::{
    Disconnect, ErrorCode, KeyEvent, Message, Pair, PairResponse, Ping, Pong, Register,
    RegisterResponse, Type,
};
use myowndesk::relay::{
    build_pair_response, build_peer_disconnected, build_ping, build_register_response,
    forward_result, RelayState,
};
use myowndesk::server::{
    due_ping, greet, handle_control_message, now_ms, serve, Admission, Control, FirstEvent,
    ServeStep, StreamEvent,
};

const KEY: &[u8] = b"my_secret_key_32_bytes_long!!";

fn start_relay() -> RelayState<u64> {
    RelayState::new(KEY.to_vec())
}

fn register_message(device_id: &str, key: &[u8]) -> Message {
    Message {
        kind: Some(Type::Register(Register {
            device_id: device_id.to_string(),
            auth_token: auth::compute_token(key, device_id),
            protocol_version: 1,
        })),
    }
}

fn response_of(message: Message) -> RegisterResponse {
    match message.kind {
        Some(Type::RegisterResponse(r)) => r,
        _ => panic!("期望 RegisterResponse"),
    }
}

fn client_register(
    state: &mut RelayState<u64>,
    connection: u64,
    device_id: &str,
    key: &[u8],
) -> RegisterResponse {
    let first = FirstEvent::Message(register_message(device_id, key));
    match greet(state, first, connection, 0) {
        Admission::Accepted { reply, .. } => response_of(reply),
        Admission::Refused(reply) => response_of(reply),
        _ => panic!("no answer"),
    }
}

fn client_pair(state: &mut RelayState<u64>, from: &str, target: &str) -> PairResponse {
    let message =
        Message { kind: Some(Type::Pair(Pair { target_device_id: target.to_string() })) };
    match handle_control_message(state, from, message, 0) {
        Control::Reply(reply) => match reply.kind {
            Some(Type::PairResponse(r)) => r,
            _ => panic!("期望 PairResponse"),
        },
        _ => panic!("期望 PairResponse"),
    }
}

#[test]
fn test_register_success() {
    let mut state = start_relay();
    let resp = client_register(&mut state, 1, "van-pc", KEY);
    assert_eq!(resp.error_code, ErrorCode::Success.code());
    assert_eq!(resp.error_message, "");
    assert!(resp.online_devices.is_empty());
    assert_eq!(state.connection_of("van-pc"), Some(&1));
}

#[test]
fn test_register_auth_failed() {
    let mut state = start_relay();
    let wrong_key = b"wrong_secret_key_32_bytes_long!";
    let resp = client_register(&mut state, 1, "van-pc", wrong_key);
    assert_eq!(resp.error_code, ErrorCode::AuthFailed.code());
    assert_eq!(resp.error_message, "认证失败");
    assert_eq!(state.connection_of("van-pc"), None);
}

#[test]
fn test_register_duplicate() {
    let mut state = start_relay();
    let resp = client_register(&mut state, 1, "van-pc", KEY);
    assert_eq!(resp.error_code, ErrorCode::Success.code());
    let resp = client_register(&mut state, 2, "van-pc", KEY);
    assert_eq!(resp.error_code, ErrorCode::Success.code());
    assert_eq!(state.connection_of("van-pc"), Some(&2));
}

#[test]
fn test_pair_success() {
    let mut state = start_relay();
    client_register(&mut state, 1, "van-pc", KEY);
    client_register(&mut state, 2, "van-laptop", KEY);
    let resp = client_pair(&mut state, "van-laptop", "van-pc");
    assert_eq!(resp.error_code, ErrorCode::Success.code());
    assert_eq!(resp.error_message, "");
}

#[test]
fn test_pair_device_not_found() {
    let mut state = start_relay();
    client_register(&mut state, 1, "van-pc", KEY);
    let resp = client_pair(&mut state, "van-pc", "nonexistent");
    assert_eq!(resp.error_code, ErrorCode::DeviceNotFound.code());
    assert_eq!(resp.error_message, "目标设备不在线");
}

#[test]
fn test_pair_already_paired() {
    let mut state = start_relay();
    client_register(&mut state, 1, "van-pc", KEY);
    client_register(&mut state, 2, "van-laptop", KEY);
    client_register(&mut state, 3, "van-server", KEY);
    let resp = client_pair(&mut state, "van-laptop", "van-pc");
    assert_eq!(resp.error_code, ErrorCode::Success.code());
    let resp = client_pair(&mut state, "van-laptop", "van-server");
    assert_eq!(resp.error_code, ErrorCode::AlreadyPaired.code());
    assert_eq!(resp.error_message, "设备已配对");
}

#[test]
fn test_forward_datagram() {
    let mut state = start_relay();
    client_register(&mut state, 1, "van-pc", KEY);
    client_register(&mut state, 2, "van-laptop", KEY);
    client_pair(&mut state, "van-laptop", "van-pc");
    let test_data = b"hello from van-pc";
    let forward = match state.forward_datagram("van-pc", test_data) {
        Ok(f) => f,
        Err(_) => panic!("no peer"),
    };
    assert_eq!(*forward.to, 2);
    assert_eq!(&forward.data[..], test_data);
}

#[test]
fn test_forward_stream_msg() {
    let mut state = start_relay();
    client_register(&mut state, 1, "van-pc", KEY);
    client_register(&mut state, 2, "van-laptop", KEY);
    client_pair(&mut state, "van-laptop", "van-pc");
    let message =
        Message { kind: Some(Type::KeyEvent(KeyEvent { key_code: 0x41, pressed: true })) };
    match handle_control_message(&mut state, "van-laptop", message, 0) {
        Control::Forward(m) => match m.kind {
            Some(Type::KeyEvent(e)) => {
                assert_eq!(e.key_code, 0x41);
                assert!(e.pressed);
            }
            _ => panic!("期望 KeyEvent"),
        },
        _ => panic!("期望 KeyEvent"),
    }
    let forward = match state.forward_encoded_msg("van-laptop", &[7, 8, 9]) {
        Ok(f) => f,
        Err(_) => panic!("no peer"),
    };
    assert_eq!(*forward.to, 1);
    assert_eq!(forward.data, encode_frame(&[7, 8, 9]));
}

#[test]
fn test_disconnect_notifies_peer() {
    let mut state = start_relay();
    client_register(&mut state, 1, "van-pc", KEY);
    client_register(&mut state, 2, "van-laptop", KEY);
    client_pair(&mut state, "van-laptop", "van-pc");
    let message =
        Message { kind: Some(Type::Disconnect(Disconnect { reason: "测试断开".to_string() })) };
    let notice = match handle_control_message(&mut state, "van-laptop", message, 0) {
        Control::Notify(Some(n)) => n,
        _ => panic!("期望 PeerDisconnected"),
    };
    assert_eq!(notice.to, "van-pc");
    match notice.message.kind {
        Some(Type::PeerDisconnected(pd)) => {
            assert!(pd.reason.contains("主动断开"));
            assert_eq!(pd.reason, "对端主动断开");
        }
        _ => panic!("期望 PeerDisconnected"),
    }
}

#[test]
fn forwarding_is_mutual() {
    let mut state = start_relay();
    client_register(&mut state, 1, "van-pc", KEY);
    client_register(&mut state, 2, "van-laptop", KEY);
    client_pair(&mut state, "van-laptop", "van-pc");
    assert_eq!(state.get_peer_connection("van-pc"), Ok(&2));
    assert_eq!(state.get_peer_connection("van-laptop"), Ok(&1));
}

#[test]
fn a_device_without_a_peer_forwards_nothing() {
    let mut state = start_relay();
    client_register(&mut state, 1, "van-pc", KEY);
    assert_eq!(state.get_peer_connection("van-pc"), Err(ErrorCode::DeviceNotFound));
    assert_eq!(state.get_peer_connection("nobody"), Err(ErrorCode::DeviceNotFound));
    assert!(state.forward_datagram("van-pc", b"x").is_err());
    assert!(state.forward_encoded_msg("nobody", b"x").is_err());
}

#[test]
fn a_failed_send_is_an_internal_error() {
    assert_eq!(forward_result(true), Ok(()));
    assert_eq!(forward_result(false), Err(ErrorCode::Internal));
}

#[test]
fn a_device_cannot_be_paired_with_itself() {
    let mut state = start_relay();
    client_register(&mut state, 1, "van-pc", KEY);
    assert_eq!(state.pair("van-pc", "van-pc"), Err(ErrorCode::DeviceNotFound));
}

#[test]
fn an_unknown_device_cannot_be_paired() {
    let mut state = start_relay();
    client_register(&mut state, 1, "van-pc", KEY);
    assert_eq!(state.pair("nobody", "van-pc"), Err(ErrorCode::DeviceNotFound));
}

#[test]
fn a_paired_target_is_refused() {
    let mut state = start_relay();
    client_register(&mut state, 1, "a", KEY);
    client_register(&mut state, 2, "b", KEY);
    client_register(&mut state, 3, "c", KEY);
    assert_eq!(state.pair("a", "b"), Ok(()));
    assert_eq!(state.pair("c", "b"), Err(ErrorCode::AlreadyPaired));
    assert_eq!(state.get_peer_connection("c"), Err(ErrorCode::DeviceNotFound));
}

#[test]
fn disconnecting_undoes_pairing() {
    let mut state = start_relay();
    client_register(&mut state, 1, "a", KEY);
    client_register(&mut state, 2, "b", KEY);
    assert_eq!(state.pair("a", "b"), Ok(()));
    assert!(state.disconnect("b").is_ok());
    assert_eq!(state.get_peer_connection("a"), Err(ErrorCode::DeviceNotFound));
    assert_eq!(state.get_peer_connection("b"), Err(ErrorCode::DeviceNotFound));
    assert_eq!(state.pair("a", "b"), Ok(()));
}

#[test]
fn disconnecting_an_unknown_device_fails() {
    let mut state = start_relay();
    match state.disconnect("nobody") {
        Err(code) => assert_eq!(code, ErrorCode::DeviceNotFound),
        Ok(_) => panic!("there is no such device"),
    }
}

#[test]
fn a_removed_device_is_forgotten() {
    let mut state = start_relay();
    client_register(&mut state, 1, "a", KEY);
    client_register(&mut state, 2, "b", KEY);
    assert_eq!(state.pair("a", "b"), Ok(()));
    let notice = state.remove_device("a");
    match notice {
        Some(n) => {
            assert_eq!(n.to, "b");
            match n.message.kind {
                Some(Type::PeerDisconnected(pd)) => assert_eq!(pd.reason, "对端离线"),
                _ => panic!("期望 PeerDisconnected"),
            }
        }
        None => panic!("the peer has to be told"),
    }
    assert_eq!(state.connection_of("a"), None);
    assert_eq!(state.get_peer_connection("b"), Err(ErrorCode::DeviceNotFound));
    assert!(state.remove_device("a").is_none());
}

#[test]
fn registering_again_frees_the_peer() {
    let mut state = start_relay();
    client_register(&mut state, 1, "a", KEY);
    client_register(&mut state, 2, "b", KEY);
    assert_eq!(state.pair("a", "b"), Ok(()));
    let first = FirstEvent::Message(register_message("a", KEY));
    match greet(&mut state, first, 3, 0) {
        Admission::Accepted { device_id, reply, notice } => {
            assert_eq!(device_id, "a");
            assert_eq!(response_of(reply).online_devices, vec!["b".to_string()]);
            match notice {
                Some(n) => {
                    assert_eq!(n.to, "b");
                    match n.message.kind {
                        Some(Type::PeerDisconnected(pd)) => {
                            assert_eq!(pd.reason, "对端重新上线")
                        }
                        _ => panic!("期望 PeerDisconnected"),
                    }
                }
                None => panic!("the peer has to be told"),
            }
        }
        _ => panic!("the registration has to be granted"),
    }
    assert_eq!(state.get_peer_connection("a"), Err(ErrorCode::DeviceNotFound));
    assert_eq!(state.get_peer_connection("b"), Err(ErrorCode::DeviceNotFound));
}

#[test]
fn online_devices_are_the_others() {
    let mut state = start_relay();
    client_register(&mut state, 1, "a", KEY);
    client_register(&mut state, 2, "b", KEY);
    let mut online = client_register(&mut state, 3, "c", KEY).online_devices;
    online.sort();
    assert_eq!(online, vec!["a".to_string(), "b".to_string()]);
}

#[test]
fn the_first_message_has_to_be_a_registration() {
    let mut state = start_relay();
    let first = FirstEvent::Message(build_ping(5));
    match greet(&mut state, first, 1, 0) {
        Admission::Refused(reply) => {
            let resp = response_of(reply);
            assert_eq!(resp.error_code, ErrorCode::AuthFailed.code());
            assert_eq!(resp.error_message, "请先发送 Register 消息");
            assert!(resp.online_devices.is_empty());
        }
        _ => panic!("a ping is no registration"),
    }
    assert!(matches!(greet(&mut state, FirstEvent::NoStream, 1, 0), Admission::Closed));
    assert!(matches!(greet(&mut state, FirstEvent::Ended, 1, 0), Admission::Closed));
    assert!(matches!(greet(&mut state, FirstEvent::Unreadable, 1, 0), Admission::Failed));
}

#[test]
fn a_silent_device_becomes_stale() {
    let mut state = start_relay();
    client_register(&mut state, 1, "a", KEY);
    client_register(&mut state, 2, "b", KEY);
    state.heartbeat("b", 100);
    assert!(state.stale_devices(30, 30).is_empty());
    assert_eq!(state.stale_devices(31, 30), vec!["a".to_string()]);
    let mut stale = state.stale_devices(131, 30);
    stale.sort();
    assert_eq!(stale, vec!["a".to_string(), "b".to_string()]);
    assert!(state.stale_devices(50, 200).is_empty());
}

#[test]
fn pings_and_pongs_are_heard() {
    let mut state = start_relay();
    client_register(&mut state, 1, "a", KEY);
    let ping = Message { kind: Some(Type::Ping(Ping { timestamp_ms: 42 })) };
    match handle_control_message(&mut state, "a", ping, 100) {
        Control::Reply(reply) => match reply.kind {
            Some(Type::Pong(p)) => assert_eq!(p.timestamp_ms, 42),
            _ => panic!("期望 Pong"),
        },
        _ => panic!("期望 Pong"),
    }
    assert!(state.stale_devices(130, 30).is_empty());
    let pong = Message { kind: Some(Type::Pong(Pong { timestamp_ms: 1 })) };
    assert!(matches!(handle_control_message(&mut state, "a", pong, 200), Control::Nothing));
    assert!(state.stale_devices(230, 30).is_empty());
    assert_eq!(state.stale_devices(231, 30).len(), 1);
}

#[test]
fn unknown_messages_are_ignored() {
    let mut state = start_relay();
    client_register(&mut state, 1, "a", KEY);
    let empty = Message { kind: None };
    assert!(matches!(handle_control_message(&mut state, "a", empty, 0), Control::Nothing));
    let again = register_message("a", KEY);
    assert!(matches!(handle_control_message(&mut state, "a", again, 0), Control::Nothing));
}

#[test]
fn a_lost_connection_takes_the_device_off() {
    let mut state = start_relay();
    client_register(&mut state, 1, "a", KEY);
    client_register(&mut state, 2, "b", KEY);
    assert_eq!(state.pair("a", "b"), Ok(()));
    assert!(matches!(
        serve(&mut state, "a", StreamEvent::Unreadable, 0),
        ServeStep::Continue(Control::Nothing)
    ));
    assert!(matches!(
        serve(&mut state, "a", StreamEvent::Ended, 0),
        ServeStep::Continue(Control::Nothing)
    ));
    assert!(matches!(
        serve(&mut state, "a", StreamEvent::Message(build_ping(1)), 0),
        ServeStep::Continue(Control::Reply(_))
    ));
    assert!(matches!(
        serve(&mut state, "a", StreamEvent::ConnectionLost, 0),
        ServeStep::Stop(Some(_))
    ));
    assert_eq!(state.connection_of("a"), None);
}

#[test]
fn messages_are_built_as_asked() {
    match build_register_response(ErrorCode::Internal, "x".to_string(), vec!["d".to_string()]).kind
    {
        Some(Type::RegisterResponse(r)) => {
            assert_eq!((r.error_code, r.error_message.as_str()), (4, "x"));
            assert_eq!(r.online_devices, vec!["d".to_string()]);
        }
        _ => panic!("期望 RegisterResponse"),
    }
    match build_pair_response(ErrorCode::AlreadyPaired, "y".to_string()).kind {
        Some(Type::PairResponse(r)) => {
            assert_eq!((r.error_code, r.error_message.as_str()), (3, "y"))
        }
        _ => panic!("期望 PairResponse"),
    }
    match build_peer_disconnected("z").kind {
        Some(Type::PeerDisconnected(p)) => assert_eq!(p.reason, "z"),
        _ => panic!("期望 PeerDisconnected"),
    }
}

#[test]
fn times_are_milliseconds_since_the_epoch() {
    assert_eq!(now_ms(None), 0);
    assert_eq!(now_ms(Some(1_700_000_000_123)), 1_700_000_000_123);
    assert_eq!(now_ms(Some(1 << 63)), i64::MIN);
    match due_ping(Some(77)).kind {
        Some(Type::Ping(p)) => assert_eq!(p.timestamp_ms, 77),
        _ => panic!("期望 Ping"),
    }
}

#[test]
fn free_devices_can_be_paired_from_either_side() {
    for (from, target) in [("dev-a", "dev-b"), ("dev-b", "dev-a")] {
        let mut state = start_relay();
        client_register(&mut state, 1, "dev-a", KEY);
        client_register(&mut state, 2, "dev-b", KEY);
        assert!(state.pair(from, target).is_ok());
        assert_eq!(state.pair(target, from), Err(ErrorCode::AlreadyPaired));
        assert_eq!(*state.get_peer_connection("dev-a").unwrap(), 2);
        assert_eq!(*state.get_peer_connection("dev-b").unwrap(), 1);
    }
}

#[test]
fn taking_stale_devices_out_leaves_none() {
    let mut state = start_relay();
    client_register(&mut state, 1, "dev-a", KEY);
    client_register(&mut state, 2, "dev-b", KEY);
    client_register(&mut state, 3, "dev-c", KEY);
    state.pair("dev-a", "dev-b").unwrap();
    state.heartbeat("dev-c", 1_000);
    let stale = state.stale_devices(1_000, 10);
    assert_eq!(stale.len(), 2);
    for id in &stale {
        state.remove_device(id);
    }
    assert!(state.stale_devices(1_000, 10).is_empty());
    assert!(state.connection_of("dev-c").is_some());
}
