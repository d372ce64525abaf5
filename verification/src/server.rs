//! What the relay does for one connection: it lets a device in, serves its
//! control messages, and lets it go.

use crate::auth;
use crate::message::{ErrorCode, Message, Pong, Type};
use crate::relay::{
    build_pair_response, build_ping, build_register_response, disconnected, heard,
    law_disconnect_frees_both, law_the_partner_is_told, mutual, notifies_peer, pair_refusal, paired,
    peer_of, registered, removed, Devices, Notice, RelayState,
    REASON_DISCONNECTED, REASON_OFFLINE, REASON_REREGISTERED,
};
use crate::table::lists;
use vstd::prelude::*;

verus! {

pub const TEXT_REGISTER_FIRST: &'static str = "请先发送 Register 消息";

pub const TEXT_AUTH_FAILED: &'static str = "认证失败";

pub const TEXT_REGISTER_FAILED: &'static str = "注册失败";

pub const TEXT_TARGET_OFFLINE: &'static str = "目标设备不在线";

pub const TEXT_ALREADY_PAIRED: &'static str = "设备已配对";

pub const TEXT_PAIR_FAILED: &'static str = "配对失败";

/// What came of waiting for the first message of a connection.
#[derive(Debug)]
pub enum FirstEvent {
    /// No stream was opened.
    NoStream,
    /// The stream ended before a message came.
    Ended,
    /// What came on the stream is no message.
    Unreadable,
    Message(Message),
}

/// What becomes of a connection after its first message.
#[derive(Debug)]
pub enum Admission {
    /// The connection is left alone.
    Closed,
    /// The connection is left alone, and the failure is reported.
    Failed,
    /// The answer goes out on the stream that the request came on, and the connection
    /// is left alone.
    Refused(Message),
    /// The answer goes out on the stream that the request came on, and the
    /// connection is served from now on.
    Accepted { device_id: String, reply: Message, notice: Option<Notice> },
}

/// What a control message asks the connection's task to do.
#[derive(Debug)]
pub enum Control {
    /// Answer on the stream that the message came on.
    Reply(Message),
    /// Tell the peer, if there is one.
    Notify(Option<Notice>),
    /// Encode the message again and forward it to the peer.
    Forward(Message),
    Nothing,
}

/// What came of waiting for a control message.
#[derive(Debug)]
pub enum StreamEvent {
    Message(Message),
    /// A stream was opened, but nothing on it was a message.
    Unreadable,
    /// A stream was opened and ended without a message.
    Ended,
    /// No stream can be opened any more.
    ConnectionLost,
}

/// What a connection's task does next.
#[derive(Debug)]
pub enum ServeStep {
    /// Do what the message asks for, then wait for the next stream.
    Continue(Control),
    /// The device is gone: tell its peer, if it has one, and stop.
    Stop(Option<Notice>),
}

/// Whether `m` answers a registration that was refused.
pub open spec fn refuses_register(m: Message, code: ErrorCode, text: Seq<char>) -> bool {
    m.kind matches Some(Type::RegisterResponse(r)) && r.error_code == code.spec_code()
        && r.error_message@ == text && r.online_devices@.len() == 0
}

/// Whether `m` answers a registration that was granted, naming the devices of `online`.
pub open spec fn grants_register(m: Message, online: Set<Seq<char>>) -> bool {
    m.kind matches Some(Type::RegisterResponse(r)) && r.error_code
        == ErrorCode::Success.spec_code() && r.error_message@.len() == 0 && lists(
        r.online_devices@,
        online,
    )
}

/// Whether `m` answers a request to be paired.
pub open spec fn answers_pair(m: Message, refusal: Option<ErrorCode>) -> bool {
    m.kind matches Some(Type::PairResponse(r)) && match refusal {
        None => r.error_code == ErrorCode::Success.spec_code() && r.error_message@.len() == 0,
        Some(code) => r.error_code == code.spec_code() && r.error_message@ == pair_text(code),
    }
}

/// The words that go with a refused pairing.
pub open spec fn pair_text(code: ErrorCode) -> Seq<char> {
    match code {
        ErrorCode::DeviceNotFound => TEXT_TARGET_OFFLINE@,
        ErrorCode::AlreadyPaired => TEXT_ALREADY_PAIRED@,
        _ => TEXT_PAIR_FAILED@,
    }
}

/// The words that go with a refused registration.
fn register_failure_text(code: ErrorCode) -> (text: String)
    ensures
        text@ == if code == ErrorCode::AuthFailed {
            TEXT_AUTH_FAILED@
        } else {
            TEXT_REGISTER_FAILED@
        },
{
    match code {
        ErrorCode::AuthFailed => TEXT_AUTH_FAILED.to_owned(),
        _ => TEXT_REGISTER_FAILED.to_owned(),
    }
}

/// What the first message of a connection turns the devices of a relay with the key `key`
/// into, and what becomes of the connection.
pub open spec fn greets<C>(
    key: Seq<u8>,
    before: Devices<C>,
    first: FirstEvent,
    connection: C,
    now: u128,
    after: Devices<C>,
    a: Admission,
) -> bool {
    match first {
        FirstEvent::NoStream | FirstEvent::Ended => a is Closed && after == before,
        FirstEvent::Unreadable => a is Failed && after == before,
        FirstEvent::Message(m) => match m.kind {
            Some(Type::Register(r)) => if auth::accepts(key, r.device_id@, r.auth_token@) {
                &&& after == registered(before, r.device_id@, connection, now)
                &&& a matches Admission::Accepted { device_id, reply, notice }
                &&& device_id@ == r.device_id@
                &&& grants_register(reply, before.dom().remove(r.device_id@))
                &&& notifies_peer(notice, before, r.device_id@, REASON_REREGISTERED@)
            } else {
                &&& after == before
                &&& a matches Admission::Refused(reply)
                &&& refuses_register(reply, ErrorCode::AuthFailed, TEXT_AUTH_FAILED@)
            },
            _ => {
                &&& after == before
                &&& a matches Admission::Refused(reply)
                &&& refuses_register(reply, ErrorCode::AuthFailed, TEXT_REGISTER_FIRST@)
            },
        },
    }
}

/// Decides on a connection by its first message, which has to be a registration.
pub fn greet<C>(
    state: &mut RelayState<C>,
    first: FirstEvent,
    connection: C,
    now: u128,
) -> (a: Admission)
    requires
        old(state).wf(),
        first matches FirstEvent::Message(m) ==> (m.kind matches Some(Type::Register(r))
            ==> auth::signable(old(state).pre_shared_key@, r.device_id@)),
    ensures
        final(state).wf(),
        final(state).pre_shared_key == old(state).pre_shared_key,
        greets(
            old(state).pre_shared_key@,
            old(state)@,
            first,
            connection,
            now,
            final(state)@,
            a,
        ),
{
    let kind = match first {
        FirstEvent::NoStream => return Admission::Closed,
        FirstEvent::Ended => return Admission::Closed,
        FirstEvent::Unreadable => return Admission::Failed,
        FirstEvent::Message(m) => m.kind,
    };
    match kind {
        Some(Type::Register(r)) => {
            let device_id = r.device_id.clone();
            match state.register(r.device_id, connection, r.auth_token.as_slice(), now) {
                Ok(done) => Admission::Accepted {
                    device_id,
                    reply: build_register_response(
                        ErrorCode::Success,
                        String::new(),
                        done.online_devices,
                    ),
                    notice: done.notice,
                },
                Err(code) => Admission::Refused(
                    build_register_response(code, register_failure_text(code), Vec::new()),
                ),
            }
        },
        _ => Admission::Refused(
            build_register_response(
                ErrorCode::AuthFailed,
                TEXT_REGISTER_FIRST.to_owned(),
                Vec::new(),
            ),
        ),
    }
}

/// Serves one control message of a registered device. Messages that mean nothing
/// to the relay are ignored.
pub fn handle_control_message<C>(
    state: &mut RelayState<C>,
    device_id: &str,
    msg: Message,
    now: u128,
) -> (c: Control)
    requires
        old(state).wf(),
    ensures
        final(state).wf(),
        final(state).pre_shared_key == old(state).pre_shared_key,
        controls(old(state)@, device_id@, msg, now, final(state)@, c),
{
    match msg.kind {
        Some(Type::Pair(pair)) => {
            let target = pair.target_device_id;
            let (code, text) = match state.pair(device_id, target.as_str()) {
                Ok(()) => (ErrorCode::Success, String::new()),
                Err(ErrorCode::DeviceNotFound) => (
                    ErrorCode::DeviceNotFound,
                    TEXT_TARGET_OFFLINE.to_owned(),
                ),
                Err(ErrorCode::AlreadyPaired) => (
                    ErrorCode::AlreadyPaired,
                    TEXT_ALREADY_PAIRED.to_owned(),
                ),
                Err(e) => (e, TEXT_PAIR_FAILED.to_owned()),
            };
            Control::Reply(build_pair_response(code, text))
        },
        Some(Type::Disconnect(_)) => match state.disconnect(device_id) {
            Ok(notice) => Control::Notify(notice),
            Err(_) => Control::Notify(None),
        },
        Some(Type::Pong(_)) => {
            state.heartbeat(device_id, now);
            Control::Nothing
        },
        Some(Type::KeyEvent(e)) => Control::Forward(Message { kind: Some(Type::KeyEvent(e)) }),
        Some(Type::MouseEvent(e)) => Control::Forward(Message { kind: Some(Type::MouseEvent(e)) }),
        Some(Type::SwitchDisplay(e)) => Control::Forward(
            Message { kind: Some(Type::SwitchDisplay(e)) },
        ),
        Some(Type::KeyFrameRequest(e)) => Control::Forward(
            Message { kind: Some(Type::KeyFrameRequest(e)) },
        ),
        Some(Type::Ping(ping)) => {
            state.heartbeat(device_id, now);
            Control::Reply(
                Message { kind: Some(Type::Pong(Pong { timestamp_ms: ping.timestamp_ms })) },
            )
        },
        _ => Control::Nothing,
    }
}

/// What serving `msg` for `id` turns the devices into, and what it asks for.
pub open spec fn controls<C>(
    before: Devices<C>,
    id: Seq<char>,
    msg: Message,
    now: u128,
    after: Devices<C>,
    c: Control,
) -> bool {
    match msg.kind {
        Some(Type::Pair(p)) => {
            let refusal = pair_refusal(before, id, p.target_device_id@);
            &&& after == if refusal is None {
                paired(before, id, p.target_device_id@)
            } else {
                before
            }
            &&& c matches Control::Reply(reply) && answers_pair(reply, refusal)
        },
        Some(Type::Disconnect(_)) => {
            &&& after == disconnected(before, id)
            &&& c matches Control::Notify(notice) && notifies_peer(
                notice,
                before,
                id,
                REASON_DISCONNECTED@,
            )
        },
        Some(Type::Pong(_)) => after == heard(before, id, now) && c is Nothing,
        Some(Type::KeyEvent(_))
        | Some(Type::MouseEvent(_))
        | Some(Type::SwitchDisplay(_))
        | Some(Type::KeyFrameRequest(_)) => after == before && c == Control::Forward(msg),
        Some(Type::Ping(p)) => {
            &&& after == heard(before, id, now)
            &&& c matches Control::Reply(reply) && reply.kind == Some(
                Type::Pong(Pong { timestamp_ms: p.timestamp_ms }),
            )
        },
        _ => after == before && c is Nothing,
    }
}

/// How what came of waiting for a control message of a registered device is served.
pub open spec fn serves<C>(
    before: Devices<C>,
    id: Seq<char>,
    event: StreamEvent,
    now: u128,
    after: Devices<C>,
    step: ServeStep,
) -> bool {
    match event {
        StreamEvent::Message(msg) => step matches ServeStep::Continue(c) && controls(
            before,
            id,
            msg,
            now,
            after,
            c,
        ),
        StreamEvent::Unreadable | StreamEvent::Ended => step == ServeStep::Continue(
            Control::Nothing,
        ) && after == before,
        StreamEvent::ConnectionLost => {
            &&& after == removed(before, id)
            &&& step matches ServeStep::Stop(notice) && notifies_peer(
                notice,
                before,
                id,
                REASON_OFFLINE@,
            )
        },
    }
}

/// Serves what came of waiting for a control message of a registered device. Each
/// stream carries one message; a device whose connection is lost leaves the relay.
pub fn serve<C>(
    state: &mut RelayState<C>,
    device_id: &str,
    event: StreamEvent,
    now: u128,
) -> (step: ServeStep)
    requires
        old(state).wf(),
    ensures
        final(state).wf(),
        final(state).pre_shared_key == old(state).pre_shared_key,
        serves(old(state)@, device_id@, event, now, final(state)@, step),
{
    match event {
        StreamEvent::Message(msg) => ServeStep::Continue(
            handle_control_message(state, device_id, msg, now),
        ),
        StreamEvent::Unreadable => ServeStep::Continue(Control::Nothing),
        StreamEvent::Ended => ServeStep::Continue(Control::Nothing),
        StreamEvent::ConnectionLost => ServeStep::Stop(state.remove_device(device_id)),
    }
}

/// Milliseconds since the Unix epoch, as messages carry them.
pub open spec fn time_of(since_epoch_ms: Option<u128>) -> i64 {
    match since_epoch_ms {
        Some(n) => n as i64,
        None => 0,
    }
}

/// Milliseconds since the Unix epoch, as messages carry them: zero for a clock
/// that stands before the epoch, and cut to 64 bits.
pub fn now_ms(since_epoch_ms: Option<u128>) -> (ms: i64)
    ensures
        ms == time_of(since_epoch_ms),
        match since_epoch_ms {
            Some(n) => n <= i64::MAX ==> ms as int == n,
            None => ms == 0,
        },
{
    match since_epoch_ms {
        Some(n) => #[verifier::truncate] (n as i64),
        None => 0,
    }
}

/// Whether `m` is the ping that a device is due, by the relay's clock.
pub open spec fn is_due_ping(m: Message, since_epoch_ms: Option<u128>) -> bool {
    m.kind matches Some(Type::Ping(p)) && p.timestamp_ms == time_of(since_epoch_ms)
}

/// The ping that a device is due, by the relay's clock.
pub fn due_ping(since_epoch_ms: Option<u128>) -> (m: Message)
    ensures
        is_due_ping(m, since_epoch_ms),
{
    build_ping(now_ms(since_epoch_ms))
}

/// A connection that brings no message is left alone, and one that brings something
/// unreadable is reported besides; neither changes anything.
pub proof fn law_silent_connections_are_left_alone<C>(
    key: Seq<u8>,
    before: Devices<C>,
    first: FirstEvent,
    connection: C,
    now: u128,
    after: Devices<C>,
    admission: Admission,
)
    requires
        greets(key, before, first, connection, now, after, admission),
    ensures
        admission is Closed <==> first is NoStream || first is Ended,
        admission is Failed <==> first is Unreadable,
        !(first is Message) ==> after == before,
{
}

/// A device that was paired and registers again is parted from its peer, and the peer,
/// whoever that is, is told with the reason; nobody else is.
pub proof fn law_registering_again_parts<C>(
    key: Seq<u8>,
    before: Devices<C>,
    first: FirstEvent,
    connection: C,
    now: u128,
    after: Devices<C>,
    admission: Admission,
    id: Seq<char>,
    peer: Seq<char>,
)
    requires
        mutual(before),
        greets(key, before, first, connection, now, after, admission),
        admission is Accepted,
        admission->device_id@ == id,
    ensures
        peer_of(before, peer) == Some(id) <==> (admission->notice matches Some(n) && n.to@ == peer),
        admission->notice matches Some(n) ==> (n.message.kind matches Some(Type::PeerDisconnected(p))
            && p.reason@ == REASON_REREGISTERED@),
        peer_of(after, id) is None,
        peer_of(before, peer) == Some(id) ==> peer_of(after, peer) is None,
{
    law_the_partner_is_told(admission->notice, before, id, REASON_REREGISTERED@, peer);
}

/// A device that ends its pairing is free again, as its peer is, and the peer, whoever that
/// is, is told; both stay online.
pub proof fn law_ending_a_pairing_parts<C>(
    before: Devices<C>,
    id: Seq<char>,
    msg: Message,
    now: u128,
    after: Devices<C>,
    control: Control,
    peer: Seq<char>,
)
    requires
        mutual(before),
        msg.kind matches Some(Type::Disconnect(_)),
        controls(before, id, msg, now, after, control),
    ensures
        control matches Control::Notify(notice) && {
            &&& peer_of(before, peer) == Some(id) <==> (notice matches Some(n) && n.to@ == peer)
            &&& notice matches Some(n) ==> (n.message.kind matches Some(Type::PeerDisconnected(p))
                && p.reason@ == REASON_DISCONNECTED@)
        },
        peer_of(after, id) is None,
        peer_of(before, peer) == Some(id) ==> peer_of(after, peer) is None,
        after.dom() == before.dom(),
{
    law_the_partner_is_told(control->Notify_0, before, id, REASON_DISCONNECTED@, peer);
    law_disconnect_frees_both(before, id, peer);
    if peer_of(before, peer) == Some(id) {
        assert(before.contains_key(peer));
    }
}

/// A device whose connection is lost leaves the relay, and its peer, whoever that is, is
/// free again and is told. A stream that brings no message changes nothing, and the device
/// is served on.
pub proof fn law_a_lost_device_leaves<C>(
    before: Devices<C>,
    id: Seq<char>,
    event: StreamEvent,
    now: u128,
    after: Devices<C>,
    step: ServeStep,
    peer: Seq<char>,
)
    requires
        mutual(before),
        serves(before, id, event, now, after, step),
    ensures
        step is Stop <==> event is ConnectionLost,
        event is ConnectionLost ==> {
            &&& !after.contains_key(id)
            &&& peer_of(before, peer) == Some(id) ==> peer_of(after, peer) is None
                && after.contains_key(peer)
            &&& peer_of(before, peer) == Some(id) <==> (step->Stop_0 matches Some(n) && n.to@
                == peer)
            &&& step->Stop_0 matches Some(n) ==> (n.message.kind matches Some(
                Type::PeerDisconnected(p),
            ) && p.reason@ == REASON_OFFLINE@)
        },
        event is Unreadable || event is Ended ==> after == before && step == ServeStep::Continue(
            Control::Nothing,
        ),
{
    if event is ConnectionLost {
        law_the_partner_is_told(step->Stop_0, before, id, REASON_OFFLINE@, peer);
        if peer_of(before, peer) == Some(id) {
            assert(before.contains_key(peer));
        }
    }
}

/// Requests to be paired that are refused for different reasons come back with different
/// words; one that is granted comes back without words.
pub proof fn law_refusals_say_why<C>(
    a: ErrorCode,
    b: ErrorCode,
    devices: Devices<C>,
    from: Seq<char>,
    target: Seq<char>,
    m: Message,
)
    requires
        answers_pair(m, pair_refusal(devices, from, target)),
    ensures
        a == ErrorCode::DeviceNotFound && b != ErrorCode::DeviceNotFound ==> pair_text(a)
            != pair_text(b),
        a == ErrorCode::AlreadyPaired && b != ErrorCode::AlreadyPaired ==> pair_text(a)
            != pair_text(b),
        m.kind matches Some(Type::PairResponse(r)) && {
            &&& pair_refusal(devices, from, target) is None <==> r.error_message@.len() == 0
            &&& pair_refusal(devices, from, target) is None <==> r.error_code == 0
        },
{
    reveal_strlit("目标设备不在线");
    reveal_strlit("设备已配对");
    reveal_strlit("配对失败");
    assert(TEXT_TARGET_OFFLINE@.len() == 7);
    assert(TEXT_ALREADY_PAIRED@.len() == 5);
    assert(TEXT_PAIR_FAILED@.len() == 4);
}

/// The words of a refused registration.
pub open spec fn refusal_words(admission: Admission) -> Seq<char> {
    admission->Refused_0.kind->0->RegisterResponse_0.error_message@
}

/// One who does not begin with a registration is refused with other words than one whose
/// token is wrong; every refusal has words, and names no device.
pub proof fn law_refused_registrations_say_why<C>(
    key: Seq<u8>,
    devices: Devices<C>,
    stranger: Message,
    forger: Message,
    connection: C,
    now: u128,
    after: Devices<C>,
    first: Admission,
    second: Admission,
)
    requires
        !(stranger.kind matches Some(Type::Register(_))),
        forger.kind matches Some(Type::Register(r)) && !auth::accepts(
            key,
            r.device_id@,
            r.auth_token@,
        ),
        greets(key, devices, FirstEvent::Message(stranger), connection, now, after, first),
        greets(key, devices, FirstEvent::Message(forger), connection, now, after, second),
    ensures
        first is Refused && second is Refused,
        refusal_words(first) != refusal_words(second),
        refusal_words(first).len() > 0 && refusal_words(second).len() > 0,
        first->Refused_0.kind->0->RegisterResponse_0.online_devices@.len() == 0,
        second->Refused_0.kind->0->RegisterResponse_0.online_devices@.len() == 0,
{
    reveal_strlit("请先发送 Register 消息");
    reveal_strlit("认证失败");
    assert(TEXT_REGISTER_FIRST@.len() == 16);
    assert(TEXT_AUTH_FAILED@.len() == 4);
}

/// A time that fits a message is carried as it is, and a clock before the epoch stands at
/// zero; the ping that a device is due carries the relay's time.
pub proof fn law_pings_carry_the_time(m: Message, since_epoch_ms: Option<u128>)
    requires
        is_due_ping(m, since_epoch_ms),
    ensures
        m.kind matches Some(Type::Ping(p)) && {
            &&& since_epoch_ms is None ==> p.timestamp_ms == 0
            &&& since_epoch_ms is Some && since_epoch_ms->0 <= i64::MAX ==> p.timestamp_ms
                == since_epoch_ms->0
        },
{
}

} // verus!
