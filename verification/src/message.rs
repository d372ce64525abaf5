//! The messages that clients and the relay exchange.
//!
//! Every message travels in a [`Message`] envelope. Enumerations travel as
//! `i32`, so a peer that knows more variants can still be read.

use vstd::prelude::*;

verus! {

/// Why a request was refused; `Success` when it was not.
#[derive(Debug, Clone, Copy, PartialEq, Eq, Structural)]
pub enum ErrorCode {
    Success,
    AuthFailed,
    DeviceNotFound,
    AlreadyPaired,
    Internal,
}

/// Whether a video frame can be decoded on its own.
#[derive(Debug, Clone, Copy, PartialEq, Eq, Structural)]
pub enum FrameType {
    Keyframe,
    Delta,
}

#[derive(Debug, Clone, Copy, PartialEq, Eq, Structural)]
pub enum MouseEventType {
    Move,
    ButtonDown,
    ButtonUp,
    Wheel,
}

#[derive(Debug, Clone, Copy, PartialEq, Eq, Structural)]
pub enum MouseButton {
    Left,
    Right,
    Middle,
}

impl ErrorCode {
    /// The number that stands for a code in a message.
    pub open spec fn spec_code(self) -> i32 {
        match self {
            ErrorCode::Success => 0,
            ErrorCode::AuthFailed => 1,
            ErrorCode::DeviceNotFound => 2,
            ErrorCode::AlreadyPaired => 3,
            ErrorCode::Internal => 4,
        }
    }

    pub fn code(self) -> (n: i32)
        ensures
            n == self.spec_code(),
    {
        match self {
            ErrorCode::Success => 0,
            ErrorCode::AuthFailed => 1,
            ErrorCode::DeviceNotFound => 2,
            ErrorCode::AlreadyPaired => 3,
            ErrorCode::Internal => 4,
        }
    }
}

impl FrameType {
    /// The number that stands for a frame type in a message.
    pub open spec fn spec_code(self) -> i32 {
        match self {
            FrameType::Keyframe => 0,
            FrameType::Delta => 1,
        }
    }

    pub fn code(self) -> (n: i32)
        ensures
            n == self.spec_code(),
    {
        match self {
            FrameType::Keyframe => 0,
            FrameType::Delta => 1,
        }
    }
}

impl MouseEventType {
    /// The number that stands for an event type in a message.
    pub open spec fn spec_code(self) -> i32 {
        match self {
            MouseEventType::Move => 0,
            MouseEventType::ButtonDown => 1,
            MouseEventType::ButtonUp => 2,
            MouseEventType::Wheel => 3,
        }
    }

    pub fn code(self) -> (n: i32)
        ensures
            n == self.spec_code(),
    {
        match self {
            MouseEventType::Move => 0,
            MouseEventType::ButtonDown => 1,
            MouseEventType::ButtonUp => 2,
            MouseEventType::Wheel => 3,
        }
    }

    /// The event type that a number stands for, if it stands for one.
    pub open spec fn spec_from_code(n: i32) -> Option<MouseEventType> {
        if n == 0 {
            Some(MouseEventType::Move)
        } else if n == 1 {
            Some(MouseEventType::ButtonDown)
        } else if n == 2 {
            Some(MouseEventType::ButtonUp)
        } else if n == 3 {
            Some(MouseEventType::Wheel)
        } else {
            None
        }
    }

    pub fn from_code(n: i32) -> (t: Option<MouseEventType>)
        ensures
            t == Self::spec_from_code(n),
    {
        match n {
            0 => Some(MouseEventType::Move),
            1 => Some(MouseEventType::ButtonDown),
            2 => Some(MouseEventType::ButtonUp),
            3 => Some(MouseEventType::Wheel),
            _ => None,
        }
    }
}

impl MouseButton {
    /// The number that stands for a button in a message.
    pub open spec fn spec_code(self) -> i32 {
        match self {
            MouseButton::Left => 0,
            MouseButton::Right => 1,
            MouseButton::Middle => 2,
        }
    }

    pub fn code(self) -> (n: i32)
        ensures
            n == self.spec_code(),
    {
        match self {
            MouseButton::Left => 0,
            MouseButton::Right => 1,
            MouseButton::Middle => 2,
        }
    }

    /// The button that a number stands for, if it stands for one.
    pub open spec fn spec_from_code(n: i32) -> Option<MouseButton> {
        if n == 0 {
            Some(MouseButton::Left)
        } else if n == 1 {
            Some(MouseButton::Right)
        } else if n == 2 {
            Some(MouseButton::Middle)
        } else {
            None
        }
    }

    pub fn from_code(n: i32) -> (b: Option<MouseButton>)
        ensures
            b == Self::spec_from_code(n),
    {
        match n {
            0 => Some(MouseButton::Left),
            1 => Some(MouseButton::Right),
            2 => Some(MouseButton::Middle),
            _ => None,
        }
    }
}

/// A device announces itself to the relay.
#[derive(Debug, Clone)]
pub struct Register {
    pub device_id: String,
    pub auth_token: Vec<u8>,
    pub protocol_version: u32,
}

/// The relay's answer to [`Register`], with the other devices that are online.
#[derive(Debug, Clone)]
pub struct RegisterResponse {
    pub error_code: i32,
    pub error_message: String,
    pub online_devices: Vec<String>,
}

/// A device asks to be bound to another one.
#[derive(Debug, Clone)]
pub struct Pair {
    pub target_device_id: String,
}

/// The relay's answer to [`Pair`].
#[derive(Debug, Clone)]
pub struct PairResponse {
    pub error_code: i32,
    pub error_message: String,
}

/// A device gives up its pairing.
#[derive(Debug, Clone)]
pub struct Disconnect {
    pub reason: String,
}

/// The relay tells a device that its peer is gone.
#[derive(Debug, Clone)]
pub struct PeerDisconnected {
    pub reason: String,
}

/// One piece of an encoded video frame.
#[derive(Debug, Clone)]
pub struct DataPacket {
    pub frame_type: i32,
    pub display_index: u32,
    pub payload: Vec<u8>,
    pub frame_seq: u32,
    pub fragment_index: u32,
    pub fragment_count: u32,
    pub encrypted_payload: Vec<u8>,
    pub nonce: Vec<u8>,
    pub key_version: u32,
}

/// A key went down or came up; the code is a Windows virtual-key code.
#[derive(Debug, Clone, Copy)]
pub struct KeyEvent {
    pub key_code: u32,
    pub pressed: bool,
}

/// A mouse event in absolute desktop coordinates.
#[derive(Debug, Clone, Copy)]
pub struct MouseEvent {
    pub event_type: i32,
    pub x: i32,
    pub y: i32,
    pub button: i32,
    pub wheel_delta: i32,
}

#[derive(Debug, Clone, Copy)]
pub struct Ping {
    pub timestamp_ms: i64,
}

#[derive(Debug, Clone, Copy)]
pub struct Pong {
    pub timestamp_ms: i64,
}

/// A viewer asks for another display.
#[derive(Debug, Clone, Copy)]
pub struct SwitchDisplay {
    pub display_index: u32,
}

/// A viewer asks for a frame that can be decoded on its own.
#[derive(Debug, Clone, Copy)]
pub struct KeyFrameRequest {
    pub display_index: u32,
}

/// The devices that are online.
#[derive(Debug, Clone)]
pub struct DeviceList {
    pub device_ids: Vec<String>,
}

/// What a [`Message`] carries.
#[derive(Debug, Clone)]
pub enum Type {
    Register(Register),
    RegisterResponse(RegisterResponse),
    Pair(Pair),
    PairResponse(PairResponse),
    Disconnect(Disconnect),
    PeerDisconnected(PeerDisconnected),
    DataPacket(DataPacket),
    KeyEvent(KeyEvent),
    MouseEvent(MouseEvent),
    Ping(Ping),
    Pong(Pong),
    SwitchDisplay(SwitchDisplay),
    KeyFrameRequest(KeyFrameRequest),
    DeviceList(DeviceList),
}

/// The envelope; `kind` is empty when a peer sent something unknown.
#[derive(Debug, Clone)]
pub struct Message {
    pub kind: Option<Type>,
}

/// The number of an event type or a button stands for it, and for no other.
pub proof fn law_codes_read_back(t: MouseEventType, b: MouseButton, n: i32)
    ensures
        MouseEventType::spec_from_code(t.spec_code()) == Some(t),
        MouseButton::spec_from_code(b.spec_code()) == Some(b),
        MouseEventType::spec_from_code(n) matches Some(u) ==> u.spec_code() == n,
        MouseButton::spec_from_code(n) matches Some(c) ==> c.spec_code() == n,
{
}

/// Success is the one code that is zero, and no two codes share a number; nor do the two
/// frame types.
pub proof fn law_codes_tell_outcomes_apart(a: ErrorCode, b: ErrorCode)
    ensures
        a.spec_code() == 0 <==> a == ErrorCode::Success,
        a.spec_code() == b.spec_code() <==> a == b,
        0 <= a.spec_code() < 5,
        FrameType::Keyframe.spec_code() != FrameType::Delta.spec_code(),
{
}

/// The kinds of an enumeration are numbered from zero, without gaps, in this order: success
/// before the ways to fail, a frame on its own before one that needs others, a move before
/// buttons and the wheel, and the left button before the right one.
pub proof fn law_codes_count_up_from_zero(n: i32)
    ensures
        0 == ErrorCode::Success.spec_code(),
        ErrorCode::Success.spec_code() + 1 == ErrorCode::AuthFailed.spec_code(),
        ErrorCode::AuthFailed.spec_code() + 1 == ErrorCode::DeviceNotFound.spec_code(),
        ErrorCode::DeviceNotFound.spec_code() + 1 == ErrorCode::AlreadyPaired.spec_code(),
        ErrorCode::AlreadyPaired.spec_code() + 1 == ErrorCode::Internal.spec_code(),
        0 == FrameType::Keyframe.spec_code(),
        FrameType::Keyframe.spec_code() + 1 == FrameType::Delta.spec_code(),
        0 == MouseEventType::Move.spec_code(),
        MouseEventType::Move.spec_code() + 1 == MouseEventType::ButtonDown.spec_code(),
        MouseEventType::ButtonDown.spec_code() + 1 == MouseEventType::ButtonUp.spec_code(),
        MouseEventType::ButtonUp.spec_code() + 1 == MouseEventType::Wheel.spec_code(),
        MouseEventType::spec_from_code(n) is Some <==> 0 <= n
            <= MouseEventType::Wheel.spec_code(),
        0 == MouseButton::Left.spec_code(),
        MouseButton::Left.spec_code() + 1 == MouseButton::Right.spec_code(),
        MouseButton::Right.spec_code() + 1 == MouseButton::Middle.spec_code(),
        MouseButton::spec_from_code(n) is Some <==> 0 <= n <= MouseButton::Middle.spec_code(),
{
}

} // verus!
