//! What holds of a viewer, the relay and a host together: what one of them sends, the
//! next one passes on or acts on.

use crate::auth;
use crate::capture::{captures, CaptureEvent, CaptureStage, CaptureStep, CapturedFrame};
use crate::color::YuvPicture;
use crate::config::{is_default, ClientConfig};
use crate::decoder::{shows, DecodedFrame};
use crate::gui::{
    button_messages, goes_on, key_message, key_messages, mouse_message, mouse_messages,
    move_messages, wheel_messages, ConnectionState, InputCapture, SessionAction, SessionEvent,
    SessionPhase, SessionStep, StateUpdate, WindowInput,
};
use crate::input::{button_record, wheel_record, DesktopInput, InputRecord};
use crate::keymap::{law_codes_tell_keys_apart, virtual_key, Key};
use crate::message::{ErrorCode, Message, MouseButton, MouseEventType, Type};
use crate::net::{paired_by, registered_by, Identity, RequestError};
use crate::relay::{notifies_peer, peer_of, stale, Devices, Notice};
use crate::relay_config::{completed, LoadedConfig};
use crate::server::{controls, greets, Admission, Control, FirstEvent};
use crate::service::{acts_on, HostAction};
use crate::table::lists;
use vstd::prelude::*;

verus! {

/// Every message on which a host acts by encoding or by injecting input is passed on by
/// the relay, unchanged, and passing it on changes nothing at the relay.
pub proof fn law_the_relay_passes_on_what_a_host_acts_on<C>(
    msg: Message,
    input: DesktopInput,
    action: HostAction,
    before: Devices<C>,
    id: Seq<char>,
    now: u128,
    after: Devices<C>,
    control: Control,
)
    requires
        acts_on(msg, input, action),
        action is WantKeyframe || action is Inject,
        controls(before, id, msg, now, after, control),
    ensures
        control == Control::Forward(msg),
        after == before,
{
}

/// The relay passes on keys, mouse events, choices of a display and requests for a frame,
/// each unchanged, and nothing else; what it passes on changes nothing at the relay.
pub proof fn law_the_relay_passes_on_four_kinds<C>(
    before: Devices<C>,
    id: Seq<char>,
    msg: Message,
    now: u128,
    after: Devices<C>,
    control: Control,
)
    requires
        controls(before, id, msg, now, after, control),
    ensures
        control is Forward <==> (msg.kind matches Some(kind) && (kind is KeyEvent || kind
            is MouseEvent || kind is SwitchDisplay || kind is KeyFrameRequest)),
        control matches Control::Forward(m) ==> m == msg && after == before,
{
}

/// The request for a first frame that a session makes once it is paired passes the relay,
/// and has the host make the next frame one that can be decoded on its own.
pub proof fn law_a_first_frame_is_made<C>(
    target: Seq<char>,
    phase: SessionPhase,
    event: SessionEvent,
    phase_after: SessionPhase,
    step: SessionStep,
    request: Message,
    before: Devices<C>,
    id: Seq<char>,
    now: u128,
    after: Devices<C>,
    control: Control,
    input: DesktopInput,
    action: HostAction,
)
    requires
        goes_on(target, phase, event, phase_after, step),
        step.action == SessionAction::AskForKeyframe(request),
        controls(before, id, request, now, after, control),
        acts_on(request, input, action),
    ensures
        phase_after == SessionPhase::Asking,
        control == Control::Forward(request),
        action is WantKeyframe,
{
}

/// The display whose first frame a session asks for is the one that captured frames are
/// of, and the one that frames are shown of.
pub proof fn law_one_display_is_asked_for_and_shown(
    target: Seq<char>,
    phase: SessionPhase,
    event: SessionEvent,
    phase_after: SessionPhase,
    step: SessionStep,
    width: u32,
    height: u32,
    stage: CaptureStage,
    now: u128,
    stage_after: CaptureStage,
    captured: CapturedFrame,
    shown: DecodedFrame,
    picture: YuvPicture,
    keyframe: bool,
)
    requires
        goes_on(target, phase, event, phase_after, step),
        step.action is AskForKeyframe,
        captures(
            width,
            height,
            stage,
            CaptureEvent::Released,
            now,
            stage_after,
            CaptureStep::Done(Some(captured)),
        ),
        shows(shown, picture, keyframe),
    ensures
        step.action->AskForKeyframe_0.kind matches Some(Type::KeyFrameRequest(r))
            && r.display_index == captured.display_index && r.display_index == shown.display_index,
{
}

/// A key that goes down or comes up in the viewer's window passes the relay, and goes down
/// or comes up on the host's desktop, with the key's own code.
pub proof fn law_keys_reach_the_desktop<C>(
    key: Key,
    pressed: bool,
    before: Devices<C>,
    id: Seq<char>,
    now: u128,
    after: Devices<C>,
    control: Control,
    input: DesktopInput,
    action: HostAction,
)
    requires
        virtual_key(key) is Some,
        controls(before, id, key_message(virtual_key(key)->0, pressed), now, after, control),
        acts_on(key_message(virtual_key(key)->0, pressed), input, action),
    ensures
        control == Control::Forward(key_message(virtual_key(key)->0, pressed)),
        action matches HostAction::Inject(InputRecord::Key { virtual_key: vk, scan_code, flags })
            && Some(vk as i32) == virtual_key(key) && scan_code == 0 && flags / 8 == 1 && flags % 2
            == 0 && (flags / 2 % 2 == 1 <==> !pressed),
{
    law_codes_tell_keys_apart(key, key);
}

/// A mouse event of the viewer passes the relay, and is injected into the host's desktop
/// as what it is: a move to the same pixel, the same button going the same way, or a turn
/// of the wheel by as many notches.
pub proof fn law_mouse_events_reach_the_desktop<C>(
    kind: MouseEventType,
    x: i32,
    y: i32,
    button: MouseButton,
    delta: i32,
    before: Devices<C>,
    id: Seq<char>,
    now: u128,
    after: Devices<C>,
    control: Control,
    input: DesktopInput,
    action: HostAction,
)
    requires
        controls(before, id, mouse_message(kind, x, y, button, delta), now, after, control),
        acts_on(mouse_message(kind, x, y, button, delta), input, action),
    ensures
        control == Control::Forward(mouse_message(kind, x, y, button, delta)),
        kind == MouseEventType::Move ==> action == HostAction::Inject(input.move_record(x, y)),
        kind == MouseEventType::ButtonDown ==> action == HostAction::Inject(
            button_record(button, true),
        ),
        kind == MouseEventType::ButtonUp ==> action == HostAction::Inject(
            button_record(button, false),
        ),
        kind == MouseEventType::Wheel ==> action == HostAction::Inject(wheel_record(delta)),
{
}

/// Whether a message is one of a key or of the mouse.
pub open spec fn is_input(m: Message) -> bool {
    m.kind matches Some(kind) && (kind is KeyEvent || kind is MouseEvent)
}

proof fn lemma_keys_are_input(keys: Seq<Key>, pressed: bool)
    ensures
        forall|k: int|
            0 <= k < key_messages(keys, pressed).len() ==> is_input(
                #[trigger] key_messages(keys, pressed)[k],
            ),
    decreases keys.len(),
{
    if keys.len() > 0 {
        let rest = key_messages(keys.drop_last(), pressed);
        lemma_keys_are_input(keys.drop_last(), pressed);
        assert forall|k: int| 0 <= k < key_messages(keys, pressed).len() implies is_input(
            #[trigger] key_messages(keys, pressed)[k],
        ) by {
            if k < rest.len() {
                assert(key_messages(keys, pressed)[k] == rest[k]);
            }
        }
    }
}

/// Everything that happens in the viewer's window and is sent is injected into the host's
/// desktop: the relay passes each message on, and the host acts on each by injecting.
pub proof fn law_all_input_is_injected<C>(
    capture: InputCapture,
    window: WindowInput,
    k: int,
    before: Devices<C>,
    id: Seq<char>,
    now: u128,
    after: Devices<C>,
    control: Control,
    input: DesktopInput,
    action: HostAction,
)
    requires
        ({
            let sent = mouse_messages(capture, window) + key_messages(window.pressed@, true)
                + key_messages(window.released@, false);
            &&& 0 <= k < sent.len()
            &&& controls(before, id, sent[k], now, after, control)
            &&& acts_on(sent[k], input, action)
        }),
    ensures
        control is Forward,
        action is Inject,
{
    lemma_keys_are_input(window.pressed@, true);
    lemma_keys_are_input(window.released@, false);
    reveal_with_fuel(button_messages, 4);
    let mouse = mouse_messages(capture, window);
    assert forall|i: int| 0 <= i < mouse.len() implies is_input(#[trigger] mouse[i]) by {
        let s = window.mouse->0;
        let moves = move_messages(s, capture.prev_mouse_pos, capture.mouse_threshold);
        let buttons = button_messages(capture.prev_mouse_buttons, window.buttons, 3);
        let wheel = wheel_messages(window.wheel);
        assert(mouse == moves + buttons + wheel);
        if i < moves.len() {
            assert(mouse[i] == moves[i]);
        } else if i < moves.len() + buttons.len() {
            assert(mouse[i] == buttons[i - moves.len()]);
        } else {
            assert(mouse[i] == wheel[i - moves.len() - buttons.len()]);
        }
    }
    let sent = mouse + key_messages(window.pressed@, true) + key_messages(window.released@, false);
    assert(is_input(sent[k]));
}

/// A device that answers the relay's pings stays online: the host and the viewer both
/// answer a ping with its own time, and the relay takes the answer, and a ping as well, for
/// a sign of life.
pub proof fn law_answering_pings_keeps_a_device_online<C>(
    ping: Message,
    input: DesktopInput,
    answer: Message,
    target: Seq<char>,
    phase: SessionPhase,
    phase_after: SessionPhase,
    step: SessionStep,
    before: Devices<C>,
    id: Seq<char>,
    heard_at: u128,
    after: Devices<C>,
    control: Control,
    now: u128,
    timeout: u128,
)
    requires
        ping.kind matches Some(Type::Ping(_)),
        acts_on(ping, input, HostAction::Answer(answer)),
        goes_on(target, phase, SessionEvent::Message(ping), phase_after, step),
        controls(before, id, answer, heard_at, after, control),
        now - heard_at <= timeout,
    ensures
        step.action == SessionAction::Answer(answer),
        answer.kind matches Some(Type::Pong(pong)) && ping.kind matches Some(Type::Ping(p))
            && pong.timestamp_ms == p.timestamp_ms,
        !stale(after, now, timeout).contains(id),
        after.dom() == before.dom(),
        control is Nothing,
{
    assert(after.dom() =~= before.dom());
}

/// A ping of a device is answered with its own time, and counts as a sign of life.
pub proof fn law_the_relay_answers_pings<C>(
    ping: Message,
    before: Devices<C>,
    id: Seq<char>,
    heard_at: u128,
    after: Devices<C>,
    control: Control,
    now: u128,
    timeout: u128,
)
    requires
        ping.kind matches Some(Type::Ping(_)),
        controls(before, id, ping, heard_at, after, control),
        now - heard_at <= timeout,
    ensures
        control matches Control::Reply(m) && (m.kind matches Some(Type::Pong(pong))
            && ping.kind matches Some(Type::Ping(p)) && pong.timestamp_ms == p.timestamp_ms),
        !stale(after, now, timeout).contains(id),
{
}

/// A device that asks to be paired learns what came of it. It takes the answer for a
/// pairing exactly if both are online, they are two, and neither had a peer; the two are
/// then each other's peers. A refusal leaves everything as it was.
pub proof fn law_the_answer_tells_of_the_pairing<C>(
    before: Devices<C>,
    id: Seq<char>,
    request: Message,
    now: u128,
    after: Devices<C>,
    control: Control,
)
    requires
        request.kind matches Some(Type::Pair(_)),
        controls(before, id, request, now, after, control),
    ensures
        control matches Control::Reply(reply) && {
            let target = request.kind->0->Pair_0.target_device_id@;
            &&& paired_by(Some(reply)) is Ok <==> id != target && before.contains_key(id)
                && before.contains_key(target) && peer_of(before, id) is None && peer_of(
                before,
                target,
            ) is None
            &&& paired_by(Some(reply)) is Ok ==> peer_of(after, id) == Some(target) && peer_of(
                after,
                target,
            ) == Some(id)
            &&& paired_by(Some(reply)) is Err ==> after == before && (paired_by(Some(reply))
                matches Err(RequestError::Refused { .. }))
        },
{
}

/// A device that knows the relay's key is let in, and learns who else is online; it is
/// reached over its connection from then on.
pub proof fn law_a_device_with_the_key_is_let_in<C>(
    identity: Identity,
    request: Message,
    before: Devices<C>,
    connection: C,
    now: u128,
    after: Devices<C>,
    admission: Admission,
)
    requires
        identity.is_registered_by(request),
        greets(
            identity.pre_shared_key@,
            before,
            FirstEvent::Message(request),
            connection,
            now,
            after,
            admission,
        ),
    ensures
        admission matches Admission::Accepted { device_id, reply, .. } && device_id@
            == identity.device_id@ && (registered_by(Some(reply)) matches Ok(online) && lists(
            online@,
            before.dom().remove(identity.device_id@),
        )),
        after.contains_key(identity.device_id@),
        after[identity.device_id@].connection == connection,
        after[identity.device_id@].last_heartbeat == now,
{
}

/// A connection that does not begin with a registration, or begins with one whose token is
/// not the device's, changes nothing at the relay, and whoever sent it learns that it was
/// refused.
pub proof fn law_others_are_refused<C>(
    key: Seq<u8>,
    before: Devices<C>,
    first: FirstEvent,
    connection: C,
    now: u128,
    after: Devices<C>,
    admission: Admission,
)
    requires
        greets(key, before, first, connection, now, after, admission),
        !(first matches FirstEvent::Message(m) && (m.kind matches Some(Type::Register(r))
            && r.auth_token@ == auth::token_of(key, r.device_id@))),
    ensures
        after == before,
        !(admission is Accepted),
        first is Message ==> (admission matches Admission::Refused(reply) && (registered_by(
            Some(reply),
        ) matches Err(RequestError::Refused { code, .. }) && code
            == ErrorCode::AuthFailed.spec_code())),
{
}

/// Whoever is told that its partner is gone notices: a host learns the reason, and a viewer
/// shows that it is disconnected and receives no more messages.
pub proof fn law_a_lost_partner_is_noticed<C>(
    notice: Option<Notice>,
    m: Devices<C>,
    id: Seq<char>,
    reason: Seq<char>,
    input: DesktopInput,
    action: HostAction,
    target: Seq<char>,
    phase: SessionPhase,
    phase_after: SessionPhase,
    step: SessionStep,
)
    requires
        peer_of(m, id) is Some,
        notifies_peer(notice, m, id, reason),
        notice is Some,
        acts_on(notice->0.message, input, action),
        goes_on(target, phase, SessionEvent::Message(notice->0.message), phase_after, step),
    ensures
        action matches HostAction::PeerGone(r) && r@ == reason,
        step.update == Some(StateUpdate::State(ConnectionState::Disconnected)),
        step.action is StopMessages,
{
}

/// A client that begins with settings of its own looks for the relay on the port on which a
/// relay that begins with settings of its own listens.
pub proof fn law_a_new_client_finds_a_new_relay(
    client: ClientConfig,
    key: String,
    relay: LoadedConfig,
)
    requires
        is_default(client),
        completed(None, key, relay),
    ensures
        client.server.address@ == "127.0.0.1"@ + ":21117"@,
        relay.config.listen_address@ == "0.0.0.0"@ + ":21117"@,
{
    reveal_strlit("127.0.0.1:21117");
    reveal_strlit("0.0.0.0:21117");
    reveal_strlit("127.0.0.1");
    reveal_strlit("0.0.0.0");
    reveal_strlit(":21117");
    assert(client.server.address@ =~= "127.0.0.1"@ + ":21117"@);
    assert(relay.config.listen_address@ =~= "0.0.0.0"@ + ":21117"@);
}

} // verus!
