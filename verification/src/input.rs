//! Mouse and keyboard input for the desktop, as the records that the system takes.

use crate::message::MouseButton;
use vstd::prelude::*;

verus! {

pub const KEYEVENTF_EXTENDEDKEY: u32 = 1;

pub const KEYEVENTF_KEYUP: u32 = 2;

pub const KEYEVENTF_SCANCODE: u32 = 8;

pub const MOUSEEVENTF_MOVE: u32 = 1;

pub const MOUSEEVENTF_LEFTDOWN: u32 = 2;

pub const MOUSEEVENTF_LEFTUP: u32 = 4;

pub const MOUSEEVENTF_RIGHTDOWN: u32 = 8;

pub const MOUSEEVENTF_RIGHTUP: u32 = 16;

pub const MOUSEEVENTF_MIDDLEDOWN: u32 = 32;

pub const MOUSEEVENTF_MIDDLEUP: u32 = 64;

pub const MOUSEEVENTF_WHEEL: u32 = 2_048;

pub const MOUSEEVENTF_ABSOLUTE: u32 = 32_768;

/// One notch of the wheel.
pub const WHEEL_DELTA: i32 = 120;

/// The largest absolute coordinate.
pub const MAX_ABSOLUTE: u32 = 65_535;

/// What the system is told to do.
#[derive(Debug, Clone, Copy, PartialEq, Eq, Structural)]
pub enum InputRecord {
    Key { virtual_key: u16, scan_code: u16, flags: u32 },
    Mouse { dx: i32, dy: i32, mouse_data: u32, flags: u32 },
}

/// No record was taken by the system.
#[derive(Debug, Clone, Copy, PartialEq, Eq, Structural)]
pub struct NotInjected;

/// Makes the records that inject input into a desktop.
pub trait InputBackend: Send {
    /// A key goes down or comes up.
    fn send_key(&mut self, key_code: i32, pressed: bool, extended: bool) -> (r: InputRecord);

    /// The mouse goes to a place on the desktop, in pixels.
    fn send_mouse_move(&mut self, x: i32, y: i32) -> (r: InputRecord);

    /// A mouse button goes down or comes up.
    fn send_mouse_button(&mut self, button: MouseButton, pressed: bool) -> (r: InputRecord);

    /// The wheel turns by some notches.
    fn send_mouse_wheel(&mut self, delta: i32) -> (r: InputRecord);
}

/// The desktop of the user who is logged in.
#[derive(Debug, Clone, Copy, PartialEq, Eq, Structural)]
pub struct DesktopInput {
    pub screen_width: u32,
    pub screen_height: u32,
}

/// A 32-bit number without its sign.
pub open spec fn unsigned(x: i32) -> int {
    if x < 0 {
        x + 0x1_0000_0000
    } else {
        x as int
    }
}

/// A pixel coordinate on an axis of `extent` pixels as an absolute one. Products
/// and results that are too large are cut off; an axis without pixels has only
/// zero.
pub open spec fn absolute(x: i32, extent: u32) -> int {
    if extent == 0 {
        0
    } else {
        let product = unsigned(x) * 65_535;
        let cut = if product > u32::MAX {
            u32::MAX as int
        } else {
            product
        };
        if cut / extent as int > MAX_ABSOLUTE {
            MAX_ABSOLUTE as int
        } else {
            cut / extent as int
        }
    }
}

/// The record of a key.
pub open spec fn key_record(key_code: i32, pressed: bool, extended: bool) -> InputRecord {
    InputRecord::Key {
        virtual_key: (key_code as int % 0x1_0000) as u16,
        scan_code: 0,
        flags: (KEYEVENTF_SCANCODE + (if pressed {
            0
        } else {
            KEYEVENTF_KEYUP as int
        }) + (if extended {
            KEYEVENTF_EXTENDEDKEY as int
        } else {
            0
        })) as u32,
    }
}

/// The record of a mouse button.
pub open spec fn button_record(button: MouseButton, pressed: bool) -> InputRecord {
    InputRecord::Mouse {
        dx: 0,
        dy: 0,
        mouse_data: 0,
        flags: match (button, pressed) {
            (MouseButton::Left, true) => MOUSEEVENTF_LEFTDOWN,
            (MouseButton::Left, false) => MOUSEEVENTF_LEFTUP,
            (MouseButton::Right, true) => MOUSEEVENTF_RIGHTDOWN,
            (MouseButton::Right, false) => MOUSEEVENTF_RIGHTUP,
            (MouseButton::Middle, true) => MOUSEEVENTF_MIDDLEDOWN,
            (MouseButton::Middle, false) => MOUSEEVENTF_MIDDLEUP,
        },
    }
}

/// The record of the wheel; the turn is cut to 32 bits.
pub open spec fn wheel_record(delta: i32) -> InputRecord {
    InputRecord::Mouse {
        dx: 0,
        dy: 0,
        mouse_data: ((delta * WHEEL_DELTA) % 0x1_0000_0000) as u32,
        flags: MOUSEEVENTF_WHEEL,
    }
}

fn absolute_coord(x: i32, extent: u32) -> (n: u32)
    ensures
        n == absolute(x, extent),
        n <= MAX_ABSOLUTE,
{
    if extent == 0 {
        return 0;
    }
    let magnitude: u64 = if x < 0 {
        (x as i64 + 0x1_0000_0000) as u64
    } else {
        x as u64
    };
    let product: u64 = magnitude * 65_535;
    let cut: u32 = if product > 0xffff_ffff {
        0xffff_ffff
    } else {
        product as u32
    };
    let scaled: u32 = cut / extent;
    if scaled > MAX_ABSOLUTE {
        MAX_ABSOLUTE
    } else {
        scaled
    }
}

impl DesktopInput {
    /// The desktop on a screen of the given size.
    pub fn new(screen_width: u32, screen_height: u32) -> (d: Self)
        ensures
            d.screen_width == screen_width,
            d.screen_height == screen_height,
    {
        DesktopInput { screen_width, screen_height }
    }

    /// Where a pixel lies, with both axes of the desktop running from 0 to 65535.
    pub fn normalize_coords(&self, x: i32, y: i32) -> (n: (u32, u32))
        ensures
            n.0 == absolute(x, self.screen_width),
            n.1 == absolute(y, self.screen_height),
    {
        (absolute_coord(x, self.screen_width), absolute_coord(y, self.screen_height))
    }

    /// What the record of a move to a pixel says.
    pub open spec fn move_record(&self, x: i32, y: i32) -> InputRecord {
        InputRecord::Mouse {
            dx: absolute(x, self.screen_width) as i32,
            dy: absolute(y, self.screen_height) as i32,
            mouse_data: 0,
            flags: (MOUSEEVENTF_MOVE + MOUSEEVENTF_ABSOLUTE) as u32,
        }
    }
}

impl InputBackend for DesktopInput {
    fn send_key(&mut self, key_code: i32, pressed: bool, extended: bool) -> (r: InputRecord)
        ensures
            r == key_record(key_code, pressed, extended),
            *final(self) == *old(self),
    {
        let mut flags: u32 = KEYEVENTF_SCANCODE;
        if !pressed {
            flags += KEYEVENTF_KEYUP;
        }
        if extended {
            flags += KEYEVENTF_EXTENDEDKEY;
        }
        let code: u64 = (key_code as i64 + 0x1_0000_0000) as u64;
        InputRecord::Key { virtual_key: (code % 0x1_0000) as u16, scan_code: 0, flags }
    }

    fn send_mouse_move(&mut self, x: i32, y: i32) -> (r: InputRecord)
        ensures
            r == old(self).move_record(x, y),
            *final(self) == *old(self),
    {
        let dx: u32 = absolute_coord(x, self.screen_width);
        let dy: u32 = absolute_coord(y, self.screen_height);
        InputRecord::Mouse {
            dx: dx as i32,
            dy: dy as i32,
            mouse_data: 0,
            flags: MOUSEEVENTF_MOVE + MOUSEEVENTF_ABSOLUTE,
        }
    }

    fn send_mouse_button(&mut self, button: MouseButton, pressed: bool) -> (r: InputRecord)
        ensures
            r == button_record(button, pressed),
            *final(self) == *old(self),
    {
        let flags: u32 = match (button, pressed) {
            (MouseButton::Left, true) => MOUSEEVENTF_LEFTDOWN,
            (MouseButton::Left, false) => MOUSEEVENTF_LEFTUP,
            (MouseButton::Right, true) => MOUSEEVENTF_RIGHTDOWN,
            (MouseButton::Right, false) => MOUSEEVENTF_RIGHTUP,
            (MouseButton::Middle, true) => MOUSEEVENTF_MIDDLEDOWN,
            (MouseButton::Middle, false) => MOUSEEVENTF_MIDDLEUP,
        };
        InputRecord::Mouse { dx: 0, dy: 0, mouse_data: 0, flags }
    }

    fn send_mouse_wheel(&mut self, delta: i32) -> (r: InputRecord)
        ensures
            r == wheel_record(delta),
            *final(self) == *old(self),
    {
        let turn: i64 = delta as i64 * 120;
        let data: u64 = (turn + 0x100_0000_0000) as u64 % 0x1_0000_0000;
        InputRecord::Mouse { dx: 0, dy: 0, mouse_data: data as u32, flags: MOUSEEVENTF_WHEEL }
    }
}

/// Whether a record that was offered went in, by the number of records that the system took.
pub open spec fn went_in(taken: u32) -> bool {
    taken != 0
}

/// What the number of records that the system took means for one that was offered.
pub fn injected(taken: u32) -> (r: Result<(), NotInjected>)
    ensures
        r is Ok <==> went_in(taken),
{
    if taken == 0 {
        Err(NotInjected)
    } else {
        Ok(())
    }
}

/// Absolute coordinates stay within their range, and a pixel further right or
/// further down never lies further left or further up.
pub proof fn law_coordinates_keep_order(x1: i32, x2: i32, extent: u32)
    requires
        0 <= x1 <= x2,
    ensures
        0 <= absolute(x1, extent) <= absolute(x2, extent) <= MAX_ABSOLUTE,
        extent > 0 && x1 <= 65_536 && x1 >= extent ==> absolute(x1, extent) == MAX_ABSOLUTE,
{
    if extent > 0 {
        let e = extent as int;
        let p1 = x1 * 65_535;
        let p2 = x2 * 65_535;
        let c1 = if p1 > u32::MAX {
            u32::MAX as int
        } else {
            p1
        };
        let c2 = if p2 > u32::MAX {
            u32::MAX as int
        } else {
            p2
        };
        assert(0 <= c1 / e <= c2 / e) by (nonlinear_arith)
            requires
                0 <= c1 <= c2,
                e > 0,
        ;
        if x1 <= 65_536 && x1 >= extent {
            assert(c1 / e >= 65_535) by (nonlinear_arith)
                requires
                    c1 >= e * 65_535,
                    e > 0,
            ;
        }
    }
}

/// On an axis, the absolute coordinate of a pixel is that part of the largest one which
/// the pixel has passed of the axis, rounded down; the end of the axis is the largest.
pub proof fn law_coordinates_are_shares(x: i32, extent: u32)
    requires
        0 < extent <= 65_536,
        0 <= x <= extent,
    ensures
        absolute(x, extent) * extent <= 65_535 * x < (absolute(x, extent) + 1) * extent,
        x == extent ==> absolute(x, extent) == 65_535,
{
    let e = extent as int;
    let p = 65_535 * x;
    vstd::arithmetic::div_mod::lemma_fundamental_div_mod(p, e);
    vstd::arithmetic::div_mod::lemma_mod_bound(p, e);
    assert(p / e <= 65_535) by (nonlinear_arith)
        requires
            e > 0,
            p <= 65_535 * e,
    ;
    assert(e * (p / e) == (p / e) * e) by (nonlinear_arith);
    assert((p / e + 1) * e == (p / e) * e + e) by (nonlinear_arith);
    if x == extent {
        assert(p / e == 65_535) by (nonlinear_arith)
            requires
                e > 0,
                p == 65_535 * e,
        ;
    }
}

/// A move to a pixel of the desktop is an absolute one, and lands on that pixel: on each
/// axis the record holds the share of that axis, of its own extent, which the pixel has
/// passed. A move to the far corner lands there.
pub proof fn law_move_lands_on_its_pixel(input: DesktopInput, x: i32, y: i32)
    requires
        0 < input.screen_width <= 65_536,
        0 < input.screen_height <= 65_536,
        0 <= x <= input.screen_width,
        0 <= y <= input.screen_height,
    ensures
        input.move_record(x, y) matches InputRecord::Mouse { dx, dy, mouse_data, flags } && {
            &&& dx * input.screen_width <= 65_535 * x < (dx + 1) * input.screen_width
            &&& dy * input.screen_height <= 65_535 * y < (dy + 1) * input.screen_height
            &&& x == input.screen_width ==> dx == 65_535
            &&& y == input.screen_height ==> dy == 65_535
            &&& mouse_data == 0
            &&& flags == 0x8001
        },
{
    law_coordinates_are_shares(x, input.screen_width);
    law_coordinates_are_shares(y, input.screen_height);
}

/// A key keeps its code, and its record says whether it went down or came up and whether
/// it is an extended one, and nothing else but that codes are scan codes.
pub proof fn law_keys_keep_their_codes(key_code: i32, pressed: bool, extended: bool)
    requires
        0 <= key_code <= 0xffff,
    ensures
        key_record(key_code, pressed, extended) matches InputRecord::Key {
            virtual_key,
            scan_code,
            flags,
        } && {
            &&& virtual_key == key_code
            &&& scan_code == 0
            &&& flags < 16
            &&& flags / 8 == 1
            &&& flags / 4 % 2 == 0
            &&& flags / 2 % 2 == 1 <==> !pressed
            &&& flags % 2 == 1 <==> extended
        },
{
}

/// Each button has one flag for going down, and the next one for coming up; no two of
/// them share a flag, and none of them moves the mouse.
pub proof fn law_buttons_have_their_own_flags(
    a: MouseButton,
    a_pressed: bool,
    b: MouseButton,
    b_pressed: bool,
)
    ensures
        button_record(a, a_pressed) == button_record(b, b_pressed) <==> a == b && a_pressed
            == b_pressed,
        button_record(a, a_pressed) matches InputRecord::Mouse { dx, dy, mouse_data, .. } && dx == 0
            && dy == 0 && mouse_data == 0,
        button_record(a, true)->Mouse_flags * 2 == button_record(a, false)->Mouse_flags,
        button_record(MouseButton::Left, true)->Mouse_flags < button_record(
            MouseButton::Right,
            true,
        )->Mouse_flags < button_record(MouseButton::Middle, true)->Mouse_flags,
{
}

/// The wheel turns by as many notches as it is told to, in the direction that it is told
/// to, wherever a turn fits 32 bits.
pub proof fn law_wheel_turns_by_notches(delta: i32)
    requires
        i32::MIN <= 120 * delta <= i32::MAX,
    ensures
        wheel_record(delta) matches InputRecord::Mouse { dx, dy, mouse_data, flags } && {
            &&& mouse_data as int == if delta < 0 {
                120 * delta + 0x1_0000_0000
            } else {
                120 * delta
            }
            &&& dx == 0 && dy == 0
            &&& flags == 2_048
        },
{
}

/// A place to the left of the screen, or above it, is taken for the far edge.
pub proof fn law_places_before_the_screen_are_far(x: i32, extent: u32)
    requires
        x < 0,
        0 < extent <= 65_536,
    ensures
        absolute(x, extent) == 65_535,
{
    let product = unsigned(x) * 65_535;
    assert(product > u32::MAX);
    let cut: int = u32::MAX as int;
    let q = cut / extent as int;
    vstd::arithmetic::div_mod::lemma_fundamental_div_mod(cut, extent as int);
    assert(q >= 65_535) by (nonlinear_arith)
        requires
            cut == extent * q + cut % extent as int,
            0 <= cut % extent as int,
            cut % (extent as int) < extent,
            cut == 4_294_967_295,
            0 < extent <= 65_536,
    ;
}

/// A record is lost exactly if the system took none.
pub proof fn law_a_record_is_lost_if_none_was_taken(taken: u32)
    ensures
        went_in(taken) <==> taken >= 1,
{
}

} // verus!
