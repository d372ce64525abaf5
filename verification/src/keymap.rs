//! The keys of a keyboard and their Windows virtual-key codes.

use vstd::prelude::*;

verus! {

/// A key, as a window reports it.
#[derive(Debug, Clone, Copy, PartialEq, Eq, Structural)]
pub enum Key {
    Key0,
    Key1,
    Key2,
    Key3,
    Key4,
    Key5,
    Key6,
    Key7,
    Key8,
    Key9,
    A,
    B,
    C,
    D,
    E,
    F,
    G,
    H,
    I,
    J,
    K,
    L,
    M,
    N,
    O,
    P,
    Q,
    R,
    S,
    T,
    U,
    V,
    W,
    X,
    Y,
    Z,
    F1,
    F2,
    F3,
    F4,
    F5,
    F6,
    F7,
    F8,
    F9,
    F10,
    F11,
    F12,
    F13,
    F14,
    F15,
    Down,
    Left,
    Right,
    Up,
    Apostrophe,
    Backquote,
    Backslash,
    Comma,
    Equal,
    LeftBracket,
    Minus,
    Period,
    RightBracket,
    Semicolon,
    Slash,
    Backspace,
    Delete,
    End,
    Enter,
    Escape,
    Home,
    Insert,
    Menu,
    PageDown,
    PageUp,
    Pause,
    Space,
    Tab,
    NumLock,
    CapsLock,
    ScrollLock,
    LeftShift,
    RightShift,
    LeftCtrl,
    RightCtrl,
    NumPad0,
    NumPad1,
    NumPad2,
    NumPad3,
    NumPad4,
    NumPad5,
    NumPad6,
    NumPad7,
    NumPad8,
    NumPad9,
    NumPadDot,
    NumPadSlash,
    NumPadAsterisk,
    NumPadMinus,
    NumPadPlus,
    NumPadEnter,
    LeftAlt,
    RightAlt,
    LeftSuper,
    RightSuper,
    /// A key that the window does not know.
    Unknown,
}

/// The virtual-key code of a key, if it has one.
pub open spec fn virtual_key(key: Key) -> Option<i32> {
    match key {
        Key::A => Some(0x41),
        Key::B => Some(0x42),
        Key::C => Some(0x43),
        Key::D => Some(0x44),
        Key::E => Some(0x45),
        Key::F => Some(0x46),
        Key::G => Some(0x47),
        Key::H => Some(0x48),
        Key::I => Some(0x49),
        Key::J => Some(0x4A),
        Key::K => Some(0x4B),
        Key::L => Some(0x4C),
        Key::M => Some(0x4D),
        Key::N => Some(0x4E),
        Key::O => Some(0x4F),
        Key::P => Some(0x50),
        Key::Q => Some(0x51),
        Key::R => Some(0x52),
        Key::S => Some(0x53),
        Key::T => Some(0x54),
        Key::U => Some(0x55),
        Key::V => Some(0x56),
        Key::W => Some(0x57),
        Key::X => Some(0x58),
        Key::Y => Some(0x59),
        Key::Z => Some(0x5A),
        Key::Key0 => Some(0x30),
        Key::Key1 => Some(0x31),
        Key::Key2 => Some(0x32),
        Key::Key3 => Some(0x33),
        Key::Key4 => Some(0x34),
        Key::Key5 => Some(0x35),
        Key::Key6 => Some(0x36),
        Key::Key7 => Some(0x37),
        Key::Key8 => Some(0x38),
        Key::Key9 => Some(0x39),
        Key::F1 => Some(0x70),
        Key::F2 => Some(0x71),
        Key::F3 => Some(0x72),
        Key::F4 => Some(0x73),
        Key::F5 => Some(0x74),
        Key::F6 => Some(0x75),
        Key::F7 => Some(0x76),
        Key::F8 => Some(0x77),
        Key::F9 => Some(0x78),
        Key::F10 => Some(0x79),
        Key::F11 => Some(0x7A),
        Key::F12 => Some(0x7B),
        Key::F13 => Some(0x7C),
        Key::F14 => Some(0x7D),
        Key::F15 => Some(0x7E),
        Key::Up => Some(0x26),
        Key::Down => Some(0x28),
        Key::Left => Some(0x25),
        Key::Right => Some(0x27),
        Key::Enter => Some(0x0D),
        Key::Escape => Some(0x1B),
        Key::Tab => Some(0x09),
        Key::Backspace => Some(0x08),
        Key::Delete => Some(0x2E),
        Key::Insert => Some(0x2D),
        Key::Home => Some(0x24),
        Key::End => Some(0x23),
        Key::PageUp => Some(0x21),
        Key::PageDown => Some(0x22),
        Key::Space => Some(0x20),
        Key::Comma => Some(0xBC),
        Key::Period => Some(0xBE),
        Key::Slash => Some(0xBF),
        Key::Semicolon => Some(0xBA),
        Key::Apostrophe => Some(0xDE),
        Key::LeftBracket => Some(0xDB),
        Key::RightBracket => Some(0xDD),
        Key::Backslash => Some(0xDC),
        Key::Minus => Some(0xBD),
        Key::Equal => Some(0xBB),
        Key::LeftCtrl => Some(0xA2),
        Key::RightCtrl => Some(0xA3),
        Key::LeftAlt => Some(0xA4),
        Key::RightAlt => Some(0xA5),
        Key::LeftShift => Some(0xA0),
        Key::RightShift => Some(0xA1),
        Key::LeftSuper => Some(0x5B),
        Key::RightSuper => Some(0x5C),
        Key::CapsLock => Some(0x14),
        Key::NumLock => Some(0x90),
        Key::ScrollLock => Some(0x91),
        Key::Pause => Some(0x13),
        Key::Menu => Some(0x5D),
        Key::NumPad0 => Some(0x60),
        Key::NumPad1 => Some(0x61),
        Key::NumPad2 => Some(0x62),
        Key::NumPad3 => Some(0x63),
        Key::NumPad4 => Some(0x64),
        Key::NumPad5 => Some(0x65),
        Key::NumPad6 => Some(0x66),
        Key::NumPad7 => Some(0x67),
        Key::NumPad8 => Some(0x68),
        Key::NumPad9 => Some(0x69),
        Key::NumPadDot => Some(0x6E),
        Key::NumPadEnter => Some(0x0D),
        Key::NumPadPlus => Some(0x6B),
        Key::NumPadMinus => Some(0x6D),
        Key::NumPadSlash => Some(0x6F),
        Key::NumPadAsterisk => Some(0x6A),
        Key::Backquote => Some(0xC0),
        Key::Unknown => None,
    }
}

/// Whether a key is one of those that came with later keyboards, which the system
/// wants flagged.
pub open spec fn extended(key: Key) -> bool {
    match key {
        Key::RightCtrl
        | Key::RightAlt
        | Key::Up
        | Key::Down
        | Key::Left
        | Key::Right
        | Key::Insert
        | Key::Delete
        | Key::Home
        | Key::End
        | Key::PageUp
        | Key::PageDown
        | Key::NumPadEnter
        | Key::NumPadSlash
        | Key::LeftSuper
        | Key::RightSuper
        | Key::Menu => true,
        _ => false,
    }
}

/// The Windows virtual-key code of a key, if it has one.
pub fn minifb_key_to_vk(key: Key) -> (vk: Option<i32>)
    ensures
        vk == virtual_key(key),
{
    match key {
        Key::A => Some(0x41),
        Key::B => Some(0x42),
        Key::C => Some(0x43),
        Key::D => Some(0x44),
        Key::E => Some(0x45),
        Key::F => Some(0x46),
        Key::G => Some(0x47),
        Key::H => Some(0x48),
        Key::I => Some(0x49),
        Key::J => Some(0x4A),
        Key::K => Some(0x4B),
        Key::L => Some(0x4C),
        Key::M => Some(0x4D),
        Key::N => Some(0x4E),
        Key::O => Some(0x4F),
        Key::P => Some(0x50),
        Key::Q => Some(0x51),
        Key::R => Some(0x52),
        Key::S => Some(0x53),
        Key::T => Some(0x54),
        Key::U => Some(0x55),
        Key::V => Some(0x56),
        Key::W => Some(0x57),
        Key::X => Some(0x58),
        Key::Y => Some(0x59),
        Key::Z => Some(0x5A),
        Key::Key0 => Some(0x30),
        Key::Key1 => Some(0x31),
        Key::Key2 => Some(0x32),
        Key::Key3 => Some(0x33),
        Key::Key4 => Some(0x34),
        Key::Key5 => Some(0x35),
        Key::Key6 => Some(0x36),
        Key::Key7 => Some(0x37),
        Key::Key8 => Some(0x38),
        Key::Key9 => Some(0x39),
        Key::F1 => Some(0x70),
        Key::F2 => Some(0x71),
        Key::F3 => Some(0x72),
        Key::F4 => Some(0x73),
        Key::F5 => Some(0x74),
        Key::F6 => Some(0x75),
        Key::F7 => Some(0x76),
        Key::F8 => Some(0x77),
        Key::F9 => Some(0x78),
        Key::F10 => Some(0x79),
        Key::F11 => Some(0x7A),
        Key::F12 => Some(0x7B),
        Key::F13 => Some(0x7C),
        Key::F14 => Some(0x7D),
        Key::F15 => Some(0x7E),
        Key::Up => Some(0x26),
        Key::Down => Some(0x28),
        Key::Left => Some(0x25),
        Key::Right => Some(0x27),
        Key::Enter => Some(0x0D),
        Key::Escape => Some(0x1B),
        Key::Tab => Some(0x09),
        Key::Backspace => Some(0x08),
        Key::Delete => Some(0x2E),
        Key::Insert => Some(0x2D),
        Key::Home => Some(0x24),
        Key::End => Some(0x23),
        Key::PageUp => Some(0x21),
        Key::PageDown => Some(0x22),
        Key::Space => Some(0x20),
        Key::Comma => Some(0xBC),
        Key::Period => Some(0xBE),
        Key::Slash => Some(0xBF),
        Key::Semicolon => Some(0xBA),
        Key::Apostrophe => Some(0xDE),
        Key::LeftBracket => Some(0xDB),
        Key::RightBracket => Some(0xDD),
        Key::Backslash => Some(0xDC),
        Key::Minus => Some(0xBD),
        Key::Equal => Some(0xBB),
        Key::LeftCtrl => Some(0xA2),
        Key::RightCtrl => Some(0xA3),
        Key::LeftAlt => Some(0xA4),
        Key::RightAlt => Some(0xA5),
        Key::LeftShift => Some(0xA0),
        Key::RightShift => Some(0xA1),
        Key::LeftSuper => Some(0x5B),
        Key::RightSuper => Some(0x5C),
        Key::CapsLock => Some(0x14),
        Key::NumLock => Some(0x90),
        Key::ScrollLock => Some(0x91),
        Key::Pause => Some(0x13),
        Key::Menu => Some(0x5D),
        Key::NumPad0 => Some(0x60),
        Key::NumPad1 => Some(0x61),
        Key::NumPad2 => Some(0x62),
        Key::NumPad3 => Some(0x63),
        Key::NumPad4 => Some(0x64),
        Key::NumPad5 => Some(0x65),
        Key::NumPad6 => Some(0x66),
        Key::NumPad7 => Some(0x67),
        Key::NumPad8 => Some(0x68),
        Key::NumPad9 => Some(0x69),
        Key::NumPadDot => Some(0x6E),
        Key::NumPadEnter => Some(0x0D),
        Key::NumPadPlus => Some(0x6B),
        Key::NumPadMinus => Some(0x6D),
        Key::NumPadSlash => Some(0x6F),
        Key::NumPadAsterisk => Some(0x6A),
        Key::Backquote => Some(0xC0),
        Key::Unknown => None,
    }
}

/// Whether a key has to be flagged as extended.
pub fn is_extended_key(key: Key) -> (b: bool)
    ensures
        b == extended(key),
{
    match key {
        Key::RightCtrl
        | Key::RightAlt
        | Key::Up
        | Key::Down
        | Key::Left
        | Key::Right
        | Key::Insert
        | Key::Delete
        | Key::Home
        | Key::End
        | Key::PageUp
        | Key::PageDown
        | Key::NumPadEnter
        | Key::NumPadSlash
        | Key::LeftSuper
        | Key::RightSuper
        | Key::Menu => true,
        _ => false,
    }
}

/// A code fits a byte, and two keys with the same code are the same, except for the
/// two that both mean Enter.
pub proof fn law_codes_tell_keys_apart(a: Key, b: Key)
    requires
        virtual_key(a) is Some,
        virtual_key(a) == virtual_key(b),
    ensures
        0 < virtual_key(a)->0 < 0xFF,
        a == b || virtual_key(a) == virtual_key(Key::Enter),
{
}

/// Every key has a code, extended ones among them; only what is no known key has
/// none.
pub proof fn law_every_key_has_a_code(key: Key)
    ensures
        virtual_key(key) is Some <==> key != Key::Unknown,
        extended(key) ==> virtual_key(key) is Some,
{
}

/// The letter or the digit on a key.
pub open spec fn letter_or_digit(key: Key) -> Option<char> {
    match key {
        Key::A => Some('A'),
        Key::B => Some('B'),
        Key::C => Some('C'),
        Key::D => Some('D'),
        Key::E => Some('E'),
        Key::F => Some('F'),
        Key::G => Some('G'),
        Key::H => Some('H'),
        Key::I => Some('I'),
        Key::J => Some('J'),
        Key::K => Some('K'),
        Key::L => Some('L'),
        Key::M => Some('M'),
        Key::N => Some('N'),
        Key::O => Some('O'),
        Key::P => Some('P'),
        Key::Q => Some('Q'),
        Key::R => Some('R'),
        Key::S => Some('S'),
        Key::T => Some('T'),
        Key::U => Some('U'),
        Key::V => Some('V'),
        Key::W => Some('W'),
        Key::X => Some('X'),
        Key::Y => Some('Y'),
        Key::Z => Some('Z'),
        Key::Key0 => Some('0'),
        Key::Key1 => Some('1'),
        Key::Key2 => Some('2'),
        Key::Key3 => Some('3'),
        Key::Key4 => Some('4'),
        Key::Key5 => Some('5'),
        Key::Key6 => Some('6'),
        Key::Key7 => Some('7'),
        Key::Key8 => Some('8'),
        Key::Key9 => Some('9'),
        _ => None,
    }
}

/// The number of a function key.
pub open spec fn function_number(key: Key) -> Option<int> {
    match key {
        Key::F1 => Some(1),
        Key::F2 => Some(2),
        Key::F3 => Some(3),
        Key::F4 => Some(4),
        Key::F5 => Some(5),
        Key::F6 => Some(6),
        Key::F7 => Some(7),
        Key::F8 => Some(8),
        Key::F9 => Some(9),
        Key::F10 => Some(10),
        Key::F11 => Some(11),
        Key::F12 => Some(12),
        Key::F13 => Some(13),
        Key::F14 => Some(14),
        Key::F15 => Some(15),
        _ => None,
    }
}

/// The digit on a key of the number pad.
pub open spec fn pad_digit(key: Key) -> Option<int> {
    match key {
        Key::NumPad0 => Some(0),
        Key::NumPad1 => Some(1),
        Key::NumPad2 => Some(2),
        Key::NumPad3 => Some(3),
        Key::NumPad4 => Some(4),
        Key::NumPad5 => Some(5),
        Key::NumPad6 => Some(6),
        Key::NumPad7 => Some(7),
        Key::NumPad8 => Some(8),
        Key::NumPad9 => Some(9),
        _ => None,
    }
}

/// The codes of letters and digits are those of the characters on them; the codes of
/// function keys and of the digits on the number pad follow their numbers.
pub proof fn law_codes_follow_the_characters(key: Key)
    ensures
        letter_or_digit(key) matches Some(c) ==> virtual_key(key) == Some(c as i32),
        function_number(key) matches Some(n) ==> virtual_key(key) == Some((0x6F + n) as i32),
        pad_digit(key) matches Some(d) ==> virtual_key(key) == Some((0x60 + d) as i32),
{
}

/// The codes of the other keys lie as the system lays them out: control keys have the
/// codes of the characters that they give, the signs of the number pad lie 64 behind their
/// characters, rows of punctuation lie at a fixed distance from theirs, the keys around
/// the arrows follow each other, and the right one of two keys follows the left one.
pub proof fn law_codes_lie_in_rows()
    ensures
        virtual_key(Key::Backspace) == Some(8i32),
        virtual_key(Key::Tab) == Some('\t' as i32),
        virtual_key(Key::Enter) == Some('\r' as i32),
        virtual_key(Key::NumPadEnter) == virtual_key(Key::Enter),
        virtual_key(Key::Escape) == Some(27i32),
        virtual_key(Key::Space) == Some(' ' as i32),
        virtual_key(Key::NumPadAsterisk)->0 == '*' as int + 64,
        virtual_key(Key::NumPadPlus)->0 == '+' as int + 64,
        virtual_key(Key::NumPadMinus)->0 == '-' as int + 64,
        virtual_key(Key::NumPadDot)->0 == '.' as int + 64,
        virtual_key(Key::NumPadSlash)->0 == '/' as int + 64,
        virtual_key(Key::Comma)->0 == ',' as int + 144,
        virtual_key(Key::Minus)->0 == '-' as int + 144,
        virtual_key(Key::Period)->0 == '.' as int + 144,
        virtual_key(Key::Slash)->0 == '/' as int + 144,
        virtual_key(Key::Semicolon)->0 + 1 == virtual_key(Key::Equal)->0,
        virtual_key(Key::Equal)->0 + 1 == virtual_key(Key::Comma)->0,
        virtual_key(Key::Backquote)->0 == virtual_key(Key::Slash)->0 + 1,
        virtual_key(Key::LeftBracket)->0 == '[' as int + 128,
        virtual_key(Key::Backslash)->0 == '\\' as int + 128,
        virtual_key(Key::RightBracket)->0 == ']' as int + 128,
        virtual_key(Key::Apostrophe)->0 == virtual_key(Key::RightBracket)->0 + 1,
        virtual_key(Key::PageUp)->0 == virtual_key(Key::Space)->0 + 1,
        virtual_key(Key::PageDown)->0 == virtual_key(Key::PageUp)->0 + 1,
        virtual_key(Key::End)->0 == virtual_key(Key::PageDown)->0 + 1,
        virtual_key(Key::Home)->0 == virtual_key(Key::End)->0 + 1,
        virtual_key(Key::Left)->0 == virtual_key(Key::Home)->0 + 1,
        virtual_key(Key::Up)->0 == virtual_key(Key::Left)->0 + 1,
        virtual_key(Key::Right)->0 == virtual_key(Key::Up)->0 + 1,
        virtual_key(Key::Down)->0 == virtual_key(Key::Right)->0 + 1,
        virtual_key(Key::Delete)->0 == virtual_key(Key::Insert)->0 + 1,
        virtual_key(Key::Insert)->0 == virtual_key(Key::Down)->0 + 5,
        virtual_key(Key::Pause)->0 == 19,
        virtual_key(Key::CapsLock)->0 == virtual_key(Key::Pause)->0 + 1,
        virtual_key(Key::LeftSuper)->0 == virtual_key(Key::Z)->0 + 1,
        virtual_key(Key::RightSuper)->0 == virtual_key(Key::LeftSuper)->0 + 1,
        virtual_key(Key::Menu)->0 == virtual_key(Key::RightSuper)->0 + 1,
        virtual_key(Key::NumLock)->0 == 144,
        virtual_key(Key::ScrollLock)->0 == virtual_key(Key::NumLock)->0 + 1,
        virtual_key(Key::LeftShift)->0 == 160,
        virtual_key(Key::RightShift)->0 == virtual_key(Key::LeftShift)->0 + 1,
        virtual_key(Key::LeftCtrl)->0 == virtual_key(Key::RightShift)->0 + 1,
        virtual_key(Key::RightCtrl)->0 == virtual_key(Key::LeftCtrl)->0 + 1,
        virtual_key(Key::LeftAlt)->0 == virtual_key(Key::RightCtrl)->0 + 1,
        virtual_key(Key::RightAlt)->0 == virtual_key(Key::LeftAlt)->0 + 1,
{
}

/// The keys with codes from page up to down, insert and delete, and those of the system are
/// extended; of a pair of control or alternate keys the right one is, and of two keys with
/// one sign that on the number pad; no other key is.
pub proof fn law_extended_keys_are_the_later_ones(key: Key)
    ensures
        virtual_key(key) matches Some(vk) && 0x21 <= vk <= 0x28 ==> extended(key),
        key == Key::Insert || key == Key::Delete ==> extended(key),
        extended(Key::RightCtrl) && !extended(Key::LeftCtrl),
        extended(Key::RightAlt) && !extended(Key::LeftAlt),
        extended(Key::NumPadEnter) && !extended(Key::Enter),
        extended(Key::NumPadSlash) && !extended(Key::Slash),
        virtual_key(key) matches Some(vk) && 0x5B <= vk <= 0x5D ==> extended(key),
        letter_or_digit(key) is Some || function_number(key) is Some || pad_digit(key) is Some
            ==> !extended(key),
        extended(key) ==> key == Key::NumPadEnter || key == Key::NumPadSlash || (virtual_key(key)
            matches Some(vk) && (0x21 <= vk <= 0x28 || 0x2D <= vk <= 0x2E || 0x5B <= vk <= 0x5D
            || vk == 0xA3 || vk == 0xA5)),
{
}

} // verus!
