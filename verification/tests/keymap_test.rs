use myowndesk::keymap::{is_extended_key, minifb_key_to_vk, Key};

#[test]
fn test_alpha_keys() {
    assert_eq!(minifb_key_to_vk(Key::A), Some(0x41));
    assert_eq!(minifb_key_to_vk(Key::Z), Some(0x5A));
}

#[test]
fn test_digit_keys() {
    assert_eq!(minifb_key_to_vk(Key::Key0), Some(0x30));
    assert_eq!(minifb_key_to_vk(Key::Key9), Some(0x39));
}

#[test]
fn test_function_keys() {
    assert_eq!(minifb_key_to_vk(Key::F1), Some(0x70));
    assert_eq!(minifb_key_to_vk(Key::F12), Some(0x7B));
}

#[test]
fn test_modifier_keys() {
    assert_eq!(minifb_key_to_vk(Key::LeftCtrl), Some(0xA2));
    assert_eq!(minifb_key_to_vk(Key::LeftAlt), Some(0xA4));
    assert_eq!(minifb_key_to_vk(Key::LeftShift), Some(0xA0));
}

#[test]
fn test_extended_keys() {
    assert!(is_extended_key(Key::RightCtrl));
    assert!(is_extended_key(Key::Up));
    assert!(!is_extended_key(Key::A));
}

#[test]
fn test_numpad() {
    assert_eq!(minifb_key_to_vk(Key::NumPad0), Some(0x60));
    assert_eq!(minifb_key_to_vk(Key::NumPadPlus), Some(0x6B));
}

#[test]
fn every_known_key_has_a_code() {
    assert_eq!(minifb_key_to_vk(Key::Backquote), Some(0xC0));
    assert_eq!(minifb_key_to_vk(Key::Unknown), None);
}

#[test]
fn both_enter_keys_share_a_code() {
    assert_eq!(minifb_key_to_vk(Key::Enter), minifb_key_to_vk(Key::NumPadEnter));
    assert_ne!(minifb_key_to_vk(Key::Enter), minifb_key_to_vk(Key::Escape));
}

#[test]
fn an_extended_key_has_a_code() {
    assert!(is_extended_key(Key::Menu));
    assert_eq!(minifb_key_to_vk(Key::Menu), Some(0x5D));
}
