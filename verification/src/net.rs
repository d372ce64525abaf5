//! What a client says to the relay, and what it makes of the answers.

use crate::auth;
use crate::hex_text::{self, decoded, HexError};
use crate::message::{
    ErrorCode, KeyFrameRequest, Message, Pair, Ping, Pong, Register, Type,
};
use vstd::prelude::*;

verus! {

/// The version of the protocol that this client speaks.
pub const PROTOCOL_VERSION: u32 = 1;

/// Who a client is to the relay.
#[derive(Debug, Clone)]
pub struct Identity {
    pub device_id: String,
    /// The bytes of the shared key.
    pub pre_shared_key: Vec<u8>,
}

/// Why a request came to nothing.
#[derive(Debug)]
pub enum RequestError {
    /// The relay refused it.
    Refused { message: String, code: i32 },
    /// The answer is no answer to the request.
    Malformed(Option<Type>),
    /// The stream ended without an answer.
    NoAnswer,
}

/// What the name of a device and the text of a key make.
pub open spec fn identifies(
    device_id: Seq<char>,
    key_text: Seq<char>,
    r: Result<Identity, HexError>,
) -> bool {
    match r {
        Ok(identity) => identity.device_id@ == device_id && decoded(
            key_text,
            Ok(identity.pre_shared_key),
        ),
        Err(e) => decoded(key_text, Err(e)),
    }
}

impl Identity {
    /// The identity of a device with a key that is written down as hexadecimal text.
    pub fn new(device_id: &str, pre_shared_key: &str) -> (r: Result<Self, HexError>)
        ensures
            identifies(device_id@, pre_shared_key@, r),
    {
        match hex_text::decode(pre_shared_key) {
            Ok(key) => Ok(Identity { device_id: device_id.to_owned(), pre_shared_key: key }),
            Err(e) => Err(e),
        }
    }

    /// Whether `m` asks the relay to register this device.
    pub open spec fn is_registered_by(&self, m: Message) -> bool {
        &&& m.kind matches Some(Type::Register(r))
        &&& r.device_id@ == self.device_id@
        &&& r.auth_token@ == auth::token_of(self.pre_shared_key@, self.device_id@)
        &&& r.protocol_version == PROTOCOL_VERSION
    }

    /// Asks the relay to register this device.
    pub fn register_request(&self) -> (m: Message)
        requires
            auth::signable(self.pre_shared_key@, self.device_id@),
        ensures
            self.is_registered_by(m),
    {
        Message {
            kind: Some(
                Type::Register(
                    Register {
                        device_id: self.device_id.clone(),
                        auth_token: auth::compute_token(
                            self.pre_shared_key.as_slice(),
                            self.device_id.as_str(),
                        ),
                        protocol_version: PROTOCOL_VERSION,
                    },
                ),
            ),
        }
    }
}

/// What an answer to a registration means.
pub open spec fn registered_by(answer: Option<Message>) -> Result<Vec<String>, RequestError> {
    match answer {
        Some(m) => match m.kind {
            Some(Type::RegisterResponse(resp)) => if resp.error_code
                == ErrorCode::Success.spec_code() {
                Ok(resp.online_devices)
            } else {
                Err(
                    RequestError::Refused { message: resp.error_message, code: resp.error_code },
                )
            },
            other => Err(RequestError::Malformed(other)),
        },
        None => Err(RequestError::Malformed(None)),
    }
}

/// What the relay's answer to a registration means: the other devices that are
/// online, or why the device is not registered.
pub fn register_outcome(answer: Option<Message>) -> (r: Result<Vec<String>, RequestError>)
    ensures
        r == registered_by(answer),
{
    let kind = match answer {
        Some(m) => m.kind,
        None => None,
    };
    match kind {
        Some(Type::RegisterResponse(resp)) => {
            if resp.error_code == ErrorCode::Success.code() {
                Ok(resp.online_devices)
            } else {
                Err(RequestError::Refused { message: resp.error_message, code: resp.error_code })
            }
        },
        other => Err(RequestError::Malformed(other)),
    }
}

/// Asks the relay to pair this device with another one.
pub fn pair_request(target_device_id: &str) -> (m: Message)
    ensures
        m.kind matches Some(Type::Pair(p)) && p.target_device_id@ == target_device_id@,
{
    Message { kind: Some(Type::Pair(Pair { target_device_id: target_device_id.to_owned() })) }
}

/// What an answer to a request to be paired means.
pub open spec fn paired_by(answer: Option<Message>) -> Result<(), RequestError> {
    match answer {
        Some(m) => match m.kind {
            Some(Type::PairResponse(resp)) => if resp.error_code
                == ErrorCode::Success.spec_code() {
                Ok(())
            } else {
                Err(
                    RequestError::Refused { message: resp.error_message, code: resp.error_code },
                )
            },
            other => Err(RequestError::Malformed(other)),
        },
        None => Err(RequestError::NoAnswer),
    }
}

/// What the relay's answer to a request to be paired means.
pub fn pair_outcome(answer: Option<Message>) -> (r: Result<(), RequestError>)
    ensures
        r == paired_by(answer),
{
    match answer {
        Some(m) => match m.kind {
            Some(Type::PairResponse(resp)) => {
                if resp.error_code == ErrorCode::Success.code() {
                    Ok(())
                } else {
                    Err(
                        RequestError::Refused {
                            message: resp.error_message,
                            code: resp.error_code,
                        },
                    )
                }
            },
            other => Err(RequestError::Malformed(other)),
        },
        None => Err(RequestError::NoAnswer),
    }
}

/// Asks the peer for a frame of the main display that can be decoded on its own.
pub fn keyframe_request() -> (m: Message)
    ensures
        m.kind == Some(Type::KeyFrameRequest(KeyFrameRequest { display_index: 0 })),
{
    Message { kind: Some(Type::KeyFrameRequest(KeyFrameRequest { display_index: 0 })) }
}

/// Answers a ping with its own time.
pub fn build_pong(ping: &Ping) -> (m: Message)
    ensures
        m.kind == Some(Type::Pong(Pong { timestamp_ms: ping.timestamp_ms })),
{
    Message { kind: Some(Type::Pong(Pong { timestamp_ms: ping.timestamp_ms })) }
}

/// A relay that holds the same key takes a client's registration for genuine.
pub proof fn law_shared_key_is_accepted(identity: Identity, relay_key: Seq<u8>, m: Message)
    requires
        identity.is_registered_by(m),
        relay_key == identity.pre_shared_key@,
    ensures
        m.kind matches Some(Type::Register(r)) && auth::accepts(
            relay_key,
            r.device_id@,
            r.auth_token@,
        ),
{
}

/// Nothing but a response to a registration that reports success registers a device; one
/// that reports anything else is passed on with its code and its words, and whatever else
/// came is passed on as it came.
pub proof fn law_only_a_granted_registration_counts(answer: Option<Message>)
    ensures
        registered_by(answer) is Ok <==> answer is Some && (answer->0.kind matches Some(
            Type::RegisterResponse(resp),
        ) && resp.error_code == 0),
        answer is Some ==> (answer->0.kind matches Some(Type::RegisterResponse(resp)) ==> {
            &&& resp.error_code == 0 ==> registered_by(answer) == Ok::<Vec<String>, RequestError>(
                resp.online_devices,
            )
            &&& resp.error_code != 0 ==> registered_by(answer) == Err::<Vec<String>, RequestError>(
                RequestError::Refused { message: resp.error_message, code: resp.error_code },
            )
        }),
        answer is Some && !(answer->0.kind matches Some(Type::RegisterResponse(_)))
            ==> registered_by(answer) == Err::<Vec<String>, RequestError>(
            RequestError::Malformed(answer->0.kind),
        ),
        answer is None ==> registered_by(answer) == Err::<Vec<String>, RequestError>(
            RequestError::Malformed(None),
        ),
{
}

/// Nothing but a response to a request to be paired that reports success pairs a device;
/// one that reports anything else is passed on with its code and its words, and a stream
/// that ends is told apart from an answer that is none.
pub proof fn law_only_a_granted_pairing_counts(answer: Option<Message>)
    ensures
        paired_by(answer) is Ok <==> answer is Some && (answer->0.kind matches Some(
            Type::PairResponse(resp),
        ) && resp.error_code == 0),
        answer is Some ==> (answer->0.kind matches Some(Type::PairResponse(resp)) ==> (
        resp.error_code != 0 ==> paired_by(answer) == Err::<(), RequestError>(
            RequestError::Refused { message: resp.error_message, code: resp.error_code },
        ))),
        answer is Some && !(answer->0.kind matches Some(Type::PairResponse(_))) ==> paired_by(
            answer,
        ) == Err::<(), RequestError>(RequestError::Malformed(answer->0.kind)),
        answer is None <==> paired_by(answer) == Err::<(), RequestError>(RequestError::NoAnswer),
{
}

/// Every registration names its device, signs the name with the device's key, and speaks
/// the first version of the protocol.
pub proof fn law_registrations_name_their_device(identity: Identity, m: Message)
    requires
        identity.is_registered_by(m),
    ensures
        m.kind matches Some(Type::Register(r)) && {
            &&& r.device_id@ == identity.device_id@
            &&& r.protocol_version == 1
            &&& r.auth_token@ == auth::hmac_sha256(
                identity.pre_shared_key@,
                vstd::utf8::encode_utf8(identity.device_id@),
            )
        },
{
}

/// A device that is given the text of a relay's key, as the relay writes it, has the relay's
/// key, and goes by the name that it was given.
pub proof fn law_a_key_is_shared_by_its_text(
    device_id: Seq<char>,
    relay_key: Seq<u8>,
    r: Result<Identity, HexError>,
)
    requires
        identifies(device_id, hex_text::hex_chars(relay_key), r),
    ensures
        r is Ok && r->Ok_0.pre_shared_key@ == relay_key && r->Ok_0.device_id@ == device_id,
{
    hex_text::law_key_round_trip(relay_key);
}

} // verus!
