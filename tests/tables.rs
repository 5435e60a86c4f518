use bevy_sdl3::keyboard::{
    convert_sdl_keycode_to_key, convert_sdl_scancode_to_physical_key, Key, KeyCode,
    SCANCODE_KEY_BASE,
};
use bevy_sdl3::mouse::{convert_sdl_mouse_button, MouseButton};

#[test]
fn scancode_letters_digits_and_unknown() {
    assert_eq!(convert_sdl_scancode_to_physical_key(4), KeyCode::KeyA);
    assert_eq!(convert_sdl_scancode_to_physical_key(29), KeyCode::KeyZ);
    assert_eq!(convert_sdl_scancode_to_physical_key(30), KeyCode::Digit1);
    assert_eq!(convert_sdl_scancode_to_physical_key(39), KeyCode::Digit0);
    assert_eq!(convert_sdl_scancode_to_physical_key(0), KeyCode::Unidentified);
}

#[test]
fn scancode_sides_stay_distinct() {
    assert_eq!(convert_sdl_scancode_to_physical_key(224), KeyCode::ControlLeft);
    assert_eq!(convert_sdl_scancode_to_physical_key(228), KeyCode::ControlRight);
    assert_eq!(convert_sdl_scancode_to_physical_key(225), KeyCode::ShiftLeft);
    assert_eq!(convert_sdl_scancode_to_physical_key(229), KeyCode::ShiftRight);
}

#[test]
fn scancode_function_numpad_and_media_keys() {
    assert_eq!(convert_sdl_scancode_to_physical_key(58), KeyCode::F1);
    assert_eq!(convert_sdl_scancode_to_physical_key(115), KeyCode::F24);
    assert_eq!(convert_sdl_scancode_to_physical_key(98), KeyCode::Numpad0);
    assert_eq!(convert_sdl_scancode_to_physical_key(212), KeyCode::NumpadMemorySubtract);
    assert_eq!(convert_sdl_scancode_to_physical_key(271), KeyCode::MediaPlayPause);
    assert_eq!(convert_sdl_scancode_to_physical_key(286), KeyCode::BrowserFavorites);
}

#[test]
fn scancode_table_is_total() {
    // codes the backend has but the engine lacks, and codes no key has
    for code in [50u32, 101, 120, 165, 176, 290, 400, 512, u32::MAX] {
        assert_eq!(convert_sdl_scancode_to_physical_key(code), KeyCode::Unidentified);
    }
    for code in 0..1024u32 {
        let _ = convert_sdl_scancode_to_physical_key(code);
    }
}

#[test]
fn keycode_letter_case_follows_shift() {
    assert_eq!(convert_sdl_keycode_to_key('a' as u32, 0x0001), Key::Character('A'));
    assert_eq!(convert_sdl_keycode_to_key('a' as u32, 0x0002), Key::Character('A'));
    assert_eq!(convert_sdl_keycode_to_key('a' as u32, 0x0000), Key::Character('a'));
    assert_eq!(convert_sdl_keycode_to_key('z' as u32, 0x0003), Key::Character('Z'));
    // shift together with another modifier still selects upper case
    assert_eq!(convert_sdl_keycode_to_key('q' as u32, 0x2001), Key::Character('Q'));
    // caps lock alone is not shift
    assert_eq!(convert_sdl_keycode_to_key('q' as u32, 0x2000), Key::Character('q'));
}

#[test]
fn keycode_punctuation_and_digits_ignore_shift() {
    assert_eq!(convert_sdl_keycode_to_key('1' as u32, 0x0001), Key::Character('1'));
    assert_eq!(convert_sdl_keycode_to_key('/' as u32, 0), Key::Character('/'));
    assert_eq!(convert_sdl_keycode_to_key('~' as u32, 0), Key::Character('~'));
    assert_eq!(convert_sdl_keycode_to_key(0xb1, 0), Key::Character('\u{b1}'));
}

#[test]
fn keycode_named_keys() {
    assert_eq!(convert_sdl_keycode_to_key(0x0d, 0), Key::Enter);
    assert_eq!(convert_sdl_keycode_to_key(0x1b, 0), Key::Escape);
    assert_eq!(convert_sdl_keycode_to_key(0x08, 0), Key::Backspace);
    assert_eq!(convert_sdl_keycode_to_key(0x09, 0), Key::Tab);
    assert_eq!(convert_sdl_keycode_to_key(0x20, 0), Key::Space);
    assert_eq!(convert_sdl_keycode_to_key(0x7f, 0), Key::Delete);
    assert_eq!(convert_sdl_keycode_to_key(SCANCODE_KEY_BASE + 57, 0), Key::CapsLock);
    assert_eq!(convert_sdl_keycode_to_key(SCANCODE_KEY_BASE + 69, 0), Key::F12);
    assert_eq!(convert_sdl_keycode_to_key(SCANCODE_KEY_BASE + 82, 0), Key::ArrowUp);
    assert_eq!(convert_sdl_keycode_to_key(SCANCODE_KEY_BASE + 88, 0), Key::Enter);
}

#[test]
fn keycode_modifier_sides_collapse() {
    for (left, right, key) in [
        (224u32, 228u32, Key::Control),
        (225, 229, Key::Shift),
        (226, 230, Key::Alt),
        (227, 231, Key::Super),
    ] {
        assert_eq!(convert_sdl_keycode_to_key(SCANCODE_KEY_BASE + left, 0), key);
        assert_eq!(convert_sdl_keycode_to_key(SCANCODE_KEY_BASE + right, 0), key);
    }
}

#[test]
fn keycode_numpad_gives_characters() {
    assert_eq!(convert_sdl_keycode_to_key(SCANCODE_KEY_BASE + 84, 0), Key::Character('/'));
    assert_eq!(convert_sdl_keycode_to_key(SCANCODE_KEY_BASE + 85, 0), Key::Character('*'));
    assert_eq!(convert_sdl_keycode_to_key(SCANCODE_KEY_BASE + 86, 0), Key::Character('-'));
    assert_eq!(convert_sdl_keycode_to_key(SCANCODE_KEY_BASE + 87, 0), Key::Character('+'));
    assert_eq!(convert_sdl_keycode_to_key(SCANCODE_KEY_BASE + 89, 0), Key::Character('1'));
    assert_eq!(convert_sdl_keycode_to_key(SCANCODE_KEY_BASE + 98, 0), Key::Character('0'));
    assert_eq!(convert_sdl_keycode_to_key(SCANCODE_KEY_BASE + 99, 0), Key::Character('.'));
}

#[test]
fn keycode_table_is_total() {
    assert_eq!(convert_sdl_keycode_to_key(0, 0), Key::Unidentified);
    // keys the backend has but the engine lacks
    assert_eq!(convert_sdl_keycode_to_key(SCANCODE_KEY_BASE + 258, 0), Key::Unidentified);
    assert_eq!(convert_sdl_keycode_to_key(SCANCODE_KEY_BASE + 208, 0), Key::Unidentified);
    assert_eq!(convert_sdl_keycode_to_key(u32::MAX, 0xffff), Key::Unidentified);
    assert_eq!(convert_sdl_keycode_to_key(0x100, 0), Key::Unidentified);
    for code in 0..0x200u32 {
        for modifiers in [0u16, 1, 2, 0x2000, 0xffff] {
            let _ = convert_sdl_keycode_to_key(code, modifiers);
            let _ = convert_sdl_keycode_to_key(SCANCODE_KEY_BASE + code, modifiers);
        }
    }
}

#[test]
fn mouse_buttons() {
    assert_eq!(convert_sdl_mouse_button(1), MouseButton::Left);
    assert_eq!(convert_sdl_mouse_button(2), MouseButton::Middle);
    assert_eq!(convert_sdl_mouse_button(3), MouseButton::Right);
    assert_eq!(convert_sdl_mouse_button(4), MouseButton::Back);
    assert_eq!(convert_sdl_mouse_button(5), MouseButton::Forward);
    assert_eq!(convert_sdl_mouse_button(0), MouseButton::Other(0));
    assert_eq!(convert_sdl_mouse_button(9), MouseButton::Other(9));
}
