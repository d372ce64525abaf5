use myowndesk::input::{injected, DesktopInput, InputBackend, InputRecord, NotInjected};
use myowndesk::message::MouseButton;

#[test]
fn test_desktop_input_creation() {
    let di = DesktopInput::new(1920, 1080);
    assert!(di.screen_width > 0);
    assert!(di.screen_height > 0);
}

#[test]
fn test_normalize_coords() {
    let di = DesktopInput { screen_width: 1920, screen_height: 1080 };
    let (x, y) = di.normalize_coords(0, 0);
    assert_eq!((x, y), (0, 0));
    let (x, y) = di.normalize_coords(1920, 1080);
    assert_eq!((x, y), (65535, 65535));
}

#[test]
fn test_normalize_coords_zero_screen() {
    let di = DesktopInput { screen_width: 0, screen_height: 0 };
    let (x, y) = di.normalize_coords(100, 200);
    assert_eq!((x, y), (0, 0));
}

#[test]
fn test_clamp_overflow() {
    let di = DesktopInput { screen_width: 1920, screen_height: 1080 };
    let (x, y) = di.normalize_coords(5000, 3000);
    assert_eq!((x, y), (65535, 65535));
}

#[test]
fn coordinates_scale_and_keep_their_order() {
    let di = DesktopInput { screen_width: 1920, screen_height: 1080 };
    assert_eq!(di.normalize_coords(960, 540), (32767, 32767));
    assert_eq!(di.normalize_coords(1, 1), (34, 60));
    assert!(di.normalize_coords(500, 0).0 <= di.normalize_coords(501, 0).0);
    assert_eq!(di.normalize_coords(-1, -1), (65535, 65535));
    let wide = DesktopInput { screen_width: 100_000, screen_height: 1 };
    assert_eq!(wide.normalize_coords(100_000, 0).0, 42949);
}

#[test]
fn keys_carry_their_flags() {
    let mut di = DesktopInput::new(1920, 1080);
    let key = |virtual_key: u16, flags: u32| InputRecord::Key { virtual_key, scan_code: 0, flags };
    assert_eq!(di.send_key(0x41, true, false), key(0x41, 8));
    assert_eq!(di.send_key(0x41, false, false), key(0x41, 10));
    assert_eq!(di.send_key(0x26, true, true), key(0x26, 9));
    assert_eq!(di.send_key(0x26, false, true), key(0x26, 11));
    assert_eq!(di.send_key(0x1_0041, true, false), key(0x41, 8));
    assert_eq!(di.send_key(-1, true, false), key(0xffff, 8));
}

#[test]
fn moves_are_absolute() {
    let mut di = DesktopInput::new(1920, 1080);
    assert_eq!(
        di.send_mouse_move(1920, 0),
        InputRecord::Mouse { dx: 65535, dy: 0, mouse_data: 0, flags: 0x8001 }
    );
}

#[test]
fn buttons_have_a_flag_each() {
    let mut di = DesktopInput::new(1920, 1080);
    for (button, pressed, flags) in [
        (MouseButton::Left, true, 2),
        (MouseButton::Left, false, 4),
        (MouseButton::Right, true, 8),
        (MouseButton::Right, false, 16),
        (MouseButton::Middle, true, 32),
        (MouseButton::Middle, false, 64),
    ] {
        assert_eq!(
            di.send_mouse_button(button, pressed),
            InputRecord::Mouse { dx: 0, dy: 0, mouse_data: 0, flags }
        );
    }
}

#[test]
fn the_wheel_turns_by_notches() {
    let mut di = DesktopInput::new(1920, 1080);
    let wheel = |mouse_data: u32| InputRecord::Mouse { dx: 0, dy: 0, mouse_data, flags: 2048 };
    assert_eq!(di.send_mouse_wheel(1), wheel(120));
    assert_eq!(di.send_mouse_wheel(-2), wheel((-240i32) as u32));
    assert_eq!(di.send_mouse_wheel(i32::MAX), wheel(i32::MAX.wrapping_mul(120) as u32));
}

#[test]
fn a_record_that_was_not_taken_is_an_error() {
    assert_eq!(injected(0), Err(NotInjected));
    assert_eq!(injected(1), Ok(()));
}
