//! Translation of native key identifiers into the engine's key vocabulary.
//!
//! Native scan codes are the USB HID usage numbers of the key positions.
//! Native key codes are the character a key produces for printable keys, and
//! the key's scan code with bit 30 set for every other key.
use crate::event::{ButtonState, EngineEvent};
use crate::window::{Sdl3Windows, WindowId};
use vstd::prelude::*;

verus! {

/// A location-based key identity, independent of the keyboard layout.
#[derive(Clone, Copy, Debug, PartialEq, Eq, Structural)]
pub enum KeyCode {
    Unidentified, KeyA, KeyB, KeyC, KeyD, KeyE, KeyF, KeyG,
    KeyH, KeyI, KeyJ, KeyK, KeyL, KeyM, KeyN, KeyO,
    KeyP, KeyQ, KeyR, KeyS, KeyT, KeyU, KeyV, KeyW,
    KeyX, KeyY, KeyZ, Digit1, Digit2, Digit3, Digit4, Digit5,
    Digit6, Digit7, Digit8, Digit9, Digit0, Enter, Escape, Backspace,
    Tab, Space, Minus, Equal, BracketLeft, BracketRight, Backslash, Semicolon,
    Quote, Backquote, Comma, Period, Slash, CapsLock, F1, F2,
    F3, F4, F5, F6, F7, F8, F9, F10,
    F11, F12, PrintScreen, ScrollLock, Pause, Insert, Home, PageUp,
    Delete, End, PageDown, ArrowRight, ArrowLeft, ArrowDown, ArrowUp, NumLock,
    NumpadDivide, NumpadMultiply, NumpadSubtract, NumpadAdd, NumpadEnter, Numpad1, Numpad2, Numpad3,
    Numpad4, Numpad5, Numpad6, Numpad7, Numpad8, Numpad9, Numpad0, NumpadDecimal,
    IntlBackslash, Power, NumpadEqual, F13, F14, F15, F16, F17,
    F18, F19, F20, F21, F22, F23, F24, Help,
    ContextMenu, Select, Again, Undo, Cut, Copy, Paste, Find,
    AudioVolumeMute, AudioVolumeUp, AudioVolumeDown, NumpadComma, Lang1, Lang2, Lang3, Lang4,
    Lang5, NumpadBackspace, NumpadMemoryStore, NumpadMemoryRecall, NumpadMemoryClear, NumpadMemoryAdd, NumpadMemorySubtract, ControlLeft,
    ShiftLeft, AltLeft, SuperLeft, ControlRight, ShiftRight, AltRight, SuperRight, Sleep,
    WakeUp, MediaTrackNext, MediaTrackPrevious, MediaStop, MediaPlayPause, MediaSelect, BrowserSearch, BrowserHome,
    BrowserBack, BrowserForward, BrowserStop, BrowserRefresh, BrowserFavorites,
}

/// The key a native scan code stands for; codes without an engine-side
/// equivalent are `Unidentified`.
pub open spec fn physical_key_of(scancode: u32) -> KeyCode {
    match scancode {
        4 => KeyCode::KeyA, 5 => KeyCode::KeyB, 6 => KeyCode::KeyC, 7 => KeyCode::KeyD,
        8 => KeyCode::KeyE, 9 => KeyCode::KeyF, 10 => KeyCode::KeyG, 11 => KeyCode::KeyH,
        12 => KeyCode::KeyI, 13 => KeyCode::KeyJ, 14 => KeyCode::KeyK, 15 => KeyCode::KeyL,
        16 => KeyCode::KeyM, 17 => KeyCode::KeyN, 18 => KeyCode::KeyO, 19 => KeyCode::KeyP,
        20 => KeyCode::KeyQ, 21 => KeyCode::KeyR, 22 => KeyCode::KeyS, 23 => KeyCode::KeyT,
        24 => KeyCode::KeyU, 25 => KeyCode::KeyV, 26 => KeyCode::KeyW, 27 => KeyCode::KeyX,
        28 => KeyCode::KeyY, 29 => KeyCode::KeyZ, 30 => KeyCode::Digit1, 31 => KeyCode::Digit2,
        32 => KeyCode::Digit3, 33 => KeyCode::Digit4, 34 => KeyCode::Digit5, 35 => KeyCode::Digit6,
        36 => KeyCode::Digit7, 37 => KeyCode::Digit8, 38 => KeyCode::Digit9, 39 => KeyCode::Digit0,
        40 => KeyCode::Enter, 41 => KeyCode::Escape, 42 => KeyCode::Backspace, 43 => KeyCode::Tab,
        44 => KeyCode::Space, 45 => KeyCode::Minus, 46 => KeyCode::Equal, 47 => KeyCode::BracketLeft,
        48 => KeyCode::BracketRight, 49 => KeyCode::Backslash, 51 => KeyCode::Semicolon, 52 => KeyCode::Quote,
        53 => KeyCode::Backquote, 54 => KeyCode::Comma, 55 => KeyCode::Period, 56 => KeyCode::Slash,
        57 => KeyCode::CapsLock, 58 => KeyCode::F1, 59 => KeyCode::F2, 60 => KeyCode::F3,
        61 => KeyCode::F4, 62 => KeyCode::F5, 63 => KeyCode::F6, 64 => KeyCode::F7,
        65 => KeyCode::F8, 66 => KeyCode::F9, 67 => KeyCode::F10, 68 => KeyCode::F11,
        69 => KeyCode::F12, 70 => KeyCode::PrintScreen, 71 => KeyCode::ScrollLock, 72 => KeyCode::Pause,
        73 => KeyCode::Insert, 74 => KeyCode::Home, 75 => KeyCode::PageUp, 76 => KeyCode::Delete,
        77 => KeyCode::End, 78 => KeyCode::PageDown, 79 => KeyCode::ArrowRight, 80 => KeyCode::ArrowLeft,
        81 => KeyCode::ArrowDown, 82 => KeyCode::ArrowUp, 83 => KeyCode::NumLock, 84 => KeyCode::NumpadDivide,
        85 => KeyCode::NumpadMultiply, 86 => KeyCode::NumpadSubtract, 87 => KeyCode::NumpadAdd, 88 => KeyCode::NumpadEnter,
        89 => KeyCode::Numpad1, 90 => KeyCode::Numpad2, 91 => KeyCode::Numpad3, 92 => KeyCode::Numpad4,
        93 => KeyCode::Numpad5, 94 => KeyCode::Numpad6, 95 => KeyCode::Numpad7, 96 => KeyCode::Numpad8,
        97 => KeyCode::Numpad9, 98 => KeyCode::Numpad0, 99 => KeyCode::NumpadDecimal, 100 => KeyCode::IntlBackslash,
        102 => KeyCode::Power, 103 => KeyCode::NumpadEqual, 104 => KeyCode::F13, 105 => KeyCode::F14,
        106 => KeyCode::F15, 107 => KeyCode::F16, 108 => KeyCode::F17, 109 => KeyCode::F18,
        110 => KeyCode::F19, 111 => KeyCode::F20, 112 => KeyCode::F21, 113 => KeyCode::F22,
        114 => KeyCode::F23, 115 => KeyCode::F24, 117 => KeyCode::Help, 118 => KeyCode::ContextMenu,
        119 => KeyCode::Select, 121 => KeyCode::Again, 122 => KeyCode::Undo, 123 => KeyCode::Cut,
        124 => KeyCode::Copy, 125 => KeyCode::Paste, 126 => KeyCode::Find, 127 => KeyCode::AudioVolumeMute,
        128 => KeyCode::AudioVolumeUp, 129 => KeyCode::AudioVolumeDown, 133 => KeyCode::NumpadComma, 144 => KeyCode::Lang1,
        145 => KeyCode::Lang2, 146 => KeyCode::Lang3, 147 => KeyCode::Lang4, 148 => KeyCode::Lang5,
        187 => KeyCode::NumpadBackspace, 208 => KeyCode::NumpadMemoryStore, 209 => KeyCode::NumpadMemoryRecall, 210 => KeyCode::NumpadMemoryClear,
        211 => KeyCode::NumpadMemoryAdd, 212 => KeyCode::NumpadMemorySubtract, 224 => KeyCode::ControlLeft, 225 => KeyCode::ShiftLeft,
        226 => KeyCode::AltLeft, 227 => KeyCode::SuperLeft, 228 => KeyCode::ControlRight, 229 => KeyCode::ShiftRight,
        230 => KeyCode::AltRight, 231 => KeyCode::SuperRight, 258 => KeyCode::Sleep, 259 => KeyCode::WakeUp,
        267 => KeyCode::MediaTrackNext, 268 => KeyCode::MediaTrackPrevious, 269 => KeyCode::MediaStop, 271 => KeyCode::MediaPlayPause,
        272 => KeyCode::MediaSelect, 280 => KeyCode::BrowserSearch, 281 => KeyCode::BrowserHome, 282 => KeyCode::BrowserBack,
        283 => KeyCode::BrowserForward, 284 => KeyCode::BrowserStop, 285 => KeyCode::BrowserRefresh, 286 => KeyCode::BrowserFavorites,
        _ => KeyCode::Unidentified,
    }
}

/// Translates a native scan code into a physical key. Total: every code has a
/// result, unmapped ones `Unidentified`.
pub fn convert_sdl_scancode_to_physical_key(scancode: u32) -> (r: KeyCode)
    ensures
        r == physical_key_of(scancode),
{
    match scancode {
        4 => KeyCode::KeyA, 5 => KeyCode::KeyB, 6 => KeyCode::KeyC, 7 => KeyCode::KeyD,
        8 => KeyCode::KeyE, 9 => KeyCode::KeyF, 10 => KeyCode::KeyG, 11 => KeyCode::KeyH,
        12 => KeyCode::KeyI, 13 => KeyCode::KeyJ, 14 => KeyCode::KeyK, 15 => KeyCode::KeyL,
        16 => KeyCode::KeyM, 17 => KeyCode::KeyN, 18 => KeyCode::KeyO, 19 => KeyCode::KeyP,
        20 => KeyCode::KeyQ, 21 => KeyCode::KeyR, 22 => KeyCode::KeyS, 23 => KeyCode::KeyT,
        24 => KeyCode::KeyU, 25 => KeyCode::KeyV, 26 => KeyCode::KeyW, 27 => KeyCode::KeyX,
        28 => KeyCode::KeyY, 29 => KeyCode::KeyZ, 30 => KeyCode::Digit1, 31 => KeyCode::Digit2,
        32 => KeyCode::Digit3, 33 => KeyCode::Digit4, 34 => KeyCode::Digit5, 35 => KeyCode::Digit6,
        36 => KeyCode::Digit7, 37 => KeyCode::Digit8, 38 => KeyCode::Digit9, 39 => KeyCode::Digit0,
        40 => KeyCode::Enter, 41 => KeyCode::Escape, 42 => KeyCode::Backspace, 43 => KeyCode::Tab,
        44 => KeyCode::Space, 45 => KeyCode::Minus, 46 => KeyCode::Equal, 47 => KeyCode::BracketLeft,
        48 => KeyCode::BracketRight, 49 => KeyCode::Backslash, 51 => KeyCode::Semicolon, 52 => KeyCode::Quote,
        53 => KeyCode::Backquote, 54 => KeyCode::Comma, 55 => KeyCode::Period, 56 => KeyCode::Slash,
        57 => KeyCode::CapsLock, 58 => KeyCode::F1, 59 => KeyCode::F2, 60 => KeyCode::F3,
        61 => KeyCode::F4, 62 => KeyCode::F5, 63 => KeyCode::F6, 64 => KeyCode::F7,
        65 => KeyCode::F8, 66 => KeyCode::F9, 67 => KeyCode::F10, 68 => KeyCode::F11,
        69 => KeyCode::F12, 70 => KeyCode::PrintScreen, 71 => KeyCode::ScrollLock, 72 => KeyCode::Pause,
        73 => KeyCode::Insert, 74 => KeyCode::Home, 75 => KeyCode::PageUp, 76 => KeyCode::Delete,
        77 => KeyCode::End, 78 => KeyCode::PageDown, 79 => KeyCode::ArrowRight, 80 => KeyCode::ArrowLeft,
        81 => KeyCode::ArrowDown, 82 => KeyCode::ArrowUp, 83 => KeyCode::NumLock, 84 => KeyCode::NumpadDivide,
        85 => KeyCode::NumpadMultiply, 86 => KeyCode::NumpadSubtract, 87 => KeyCode::NumpadAdd, 88 => KeyCode::NumpadEnter,
        89 => KeyCode::Numpad1, 90 => KeyCode::Numpad2, 91 => KeyCode::Numpad3, 92 => KeyCode::Numpad4,
        93 => KeyCode::Numpad5, 94 => KeyCode::Numpad6, 95 => KeyCode::Numpad7, 96 => KeyCode::Numpad8,
        97 => KeyCode::Numpad9, 98 => KeyCode::Numpad0, 99 => KeyCode::NumpadDecimal, 100 => KeyCode::IntlBackslash,
        102 => KeyCode::Power, 103 => KeyCode::NumpadEqual, 104 => KeyCode::F13, 105 => KeyCode::F14,
        106 => KeyCode::F15, 107 => KeyCode::F16, 108 => KeyCode::F17, 109 => KeyCode::F18,
        110 => KeyCode::F19, 111 => KeyCode::F20, 112 => KeyCode::F21, 113 => KeyCode::F22,
        114 => KeyCode::F23, 115 => KeyCode::F24, 117 => KeyCode::Help, 118 => KeyCode::ContextMenu,
        119 => KeyCode::Select, 121 => KeyCode::Again, 122 => KeyCode::Undo, 123 => KeyCode::Cut,
        124 => KeyCode::Copy, 125 => KeyCode::Paste, 126 => KeyCode::Find, 127 => KeyCode::AudioVolumeMute,
        128 => KeyCode::AudioVolumeUp, 129 => KeyCode::AudioVolumeDown, 133 => KeyCode::NumpadComma, 144 => KeyCode::Lang1,
        145 => KeyCode::Lang2, 146 => KeyCode::Lang3, 147 => KeyCode::Lang4, 148 => KeyCode::Lang5,
        187 => KeyCode::NumpadBackspace, 208 => KeyCode::NumpadMemoryStore, 209 => KeyCode::NumpadMemoryRecall, 210 => KeyCode::NumpadMemoryClear,
        211 => KeyCode::NumpadMemoryAdd, 212 => KeyCode::NumpadMemorySubtract, 224 => KeyCode::ControlLeft, 225 => KeyCode::ShiftLeft,
        226 => KeyCode::AltLeft, 227 => KeyCode::SuperLeft, 228 => KeyCode::ControlRight, 229 => KeyCode::ShiftRight,
        230 => KeyCode::AltRight, 231 => KeyCode::SuperRight, 258 => KeyCode::Sleep, 259 => KeyCode::WakeUp,
        267 => KeyCode::MediaTrackNext, 268 => KeyCode::MediaTrackPrevious, 269 => KeyCode::MediaStop, 271 => KeyCode::MediaPlayPause,
        272 => KeyCode::MediaSelect, 280 => KeyCode::BrowserSearch, 281 => KeyCode::BrowserHome, 282 => KeyCode::BrowserBack,
        283 => KeyCode::BrowserForward, 284 => KeyCode::BrowserStop, 285 => KeyCode::BrowserRefresh, 286 => KeyCode::BrowserFavorites,
        _ => KeyCode::Unidentified,
    }
}

/// The character or named key a key produces under the active modifiers.
#[derive(Clone, Copy, Debug, PartialEq, Eq, Structural)]
pub enum Key {
    Unidentified, Character(char), Enter, Escape, Backspace, Tab, Space, Delete,
    CapsLock, F1, F2, F3, F4, F5, F6, F7,
    F8, F9, F10, F11, F12, F13, F14, F15,
    F16, F17, F18, F19, F20, F21, F22, F23,
    F24, PrintScreen, ScrollLock, Pause, Insert, Home, PageUp, End,
    PageDown, ArrowRight, ArrowLeft, ArrowDown, ArrowUp, NumLock, AppSwitch, Power,
    Execute, Help, ContextMenu, Select, Again, Undo, Cut, Copy,
    Paste, Find, AudioVolumeMute, AudioVolumeUp, AudioVolumeDown, Cancel, Clear, CrSel,
    ExSel, Control, Shift, Alt, Super, WakeUp, MediaPlay, MediaPause,
    MediaRecord, MediaFastForward, MediaRewind, MediaTrackNext, MediaTrackPrevious, MediaStop, MediaPlayPause, MediaTopMenu,
    BrowserSearch, BrowserHome, BrowserBack, BrowserForward, BrowserStop, BrowserRefresh, BrowserFavorites,
}

/// Bit set in a native key code that is derived from a scan code.
pub const SCANCODE_KEY_BASE: u32 = 0x4000_0000;

/// Modifier bits of the left and right shift keys.
pub const SHIFT_MODIFIERS: u16 = 0x0003;

/// Whether either shift key is held in a native modifier set.
pub open spec fn shift_held(modifiers: u16) -> bool {
    modifiers & SHIFT_MODIFIERS != 0
}

/// The logical key of a non-printable key, by the scan code its key code
/// carries. Side variants of the modifier keys collapse into one key.
pub open spec fn named_key_of(scancode: u32) -> Key {
    match scancode {
        57 => Key::CapsLock, 58 => Key::F1, 59 => Key::F2,
        60 => Key::F3, 61 => Key::F4, 62 => Key::F5,
        63 => Key::F6, 64 => Key::F7, 65 => Key::F8,
        66 => Key::F9, 67 => Key::F10, 68 => Key::F11,
        69 => Key::F12, 70 => Key::PrintScreen, 71 => Key::ScrollLock,
        72 => Key::Pause, 73 => Key::Insert, 74 => Key::Home,
        75 => Key::PageUp, 77 => Key::End, 78 => Key::PageDown,
        79 => Key::ArrowRight, 80 => Key::ArrowLeft, 81 => Key::ArrowDown,
        82 => Key::ArrowUp, 83 => Key::NumLock, 84 => Key::Character('/'),
        85 => Key::Character('*'), 86 => Key::Character('-'), 87 => Key::Character('+'),
        88 => Key::Enter, 89 => Key::Character('1'), 90 => Key::Character('2'),
        91 => Key::Character('3'), 92 => Key::Character('4'), 93 => Key::Character('5'),
        94 => Key::Character('6'), 95 => Key::Character('7'), 96 => Key::Character('8'),
        97 => Key::Character('9'), 98 => Key::Character('0'), 99 => Key::Character('.'),
        101 => Key::AppSwitch, 102 => Key::Power, 103 => Key::Character('='),
        104 => Key::F13, 105 => Key::F14, 106 => Key::F15,
        107 => Key::F16, 108 => Key::F17, 109 => Key::F18,
        110 => Key::F19, 111 => Key::F20, 112 => Key::F21,
        113 => Key::F22, 114 => Key::F23, 115 => Key::F24,
        116 => Key::Execute, 117 => Key::Help, 118 => Key::ContextMenu,
        119 => Key::Select, 121 => Key::Again, 122 => Key::Undo,
        123 => Key::Cut, 124 => Key::Copy, 125 => Key::Paste,
        126 => Key::Find, 127 => Key::AudioVolumeMute, 128 => Key::AudioVolumeUp,
        129 => Key::AudioVolumeDown, 155 => Key::Cancel, 156 => Key::Clear,
        163 => Key::CrSel, 164 => Key::ExSel, 182 => Key::Character('('),
        183 => Key::Character(')'), 224 => Key::Control, 225 => Key::Shift,
        226 => Key::Alt, 227 => Key::Super, 228 => Key::Control,
        229 => Key::Shift, 230 => Key::Alt, 231 => Key::Super,
        259 => Key::WakeUp, 262 => Key::MediaPlay, 263 => Key::MediaPause,
        264 => Key::MediaRecord, 265 => Key::MediaFastForward, 266 => Key::MediaRewind,
        267 => Key::MediaTrackNext, 268 => Key::MediaTrackPrevious, 269 => Key::MediaStop,
        271 => Key::MediaPlayPause, 272 => Key::MediaTopMenu, 280 => Key::BrowserSearch,
        281 => Key::BrowserHome, 282 => Key::BrowserBack, 283 => Key::BrowserForward,
        284 => Key::BrowserStop, 285 => Key::BrowserRefresh, 286 => Key::BrowserFavorites,
        _ => Key::Unidentified,
    }
}

fn named_key(scancode: u32) -> (r: Key)
    ensures
        r == named_key_of(scancode),
{
    match scancode {
        57 => Key::CapsLock, 58 => Key::F1, 59 => Key::F2,
        60 => Key::F3, 61 => Key::F4, 62 => Key::F5,
        63 => Key::F6, 64 => Key::F7, 65 => Key::F8,
        66 => Key::F9, 67 => Key::F10, 68 => Key::F11,
        69 => Key::F12, 70 => Key::PrintScreen, 71 => Key::ScrollLock,
        72 => Key::Pause, 73 => Key::Insert, 74 => Key::Home,
        75 => Key::PageUp, 77 => Key::End, 78 => Key::PageDown,
        79 => Key::ArrowRight, 80 => Key::ArrowLeft, 81 => Key::ArrowDown,
        82 => Key::ArrowUp, 83 => Key::NumLock, 84 => Key::Character('/'),
        85 => Key::Character('*'), 86 => Key::Character('-'), 87 => Key::Character('+'),
        88 => Key::Enter, 89 => Key::Character('1'), 90 => Key::Character('2'),
        91 => Key::Character('3'), 92 => Key::Character('4'), 93 => Key::Character('5'),
        94 => Key::Character('6'), 95 => Key::Character('7'), 96 => Key::Character('8'),
        97 => Key::Character('9'), 98 => Key::Character('0'), 99 => Key::Character('.'),
        101 => Key::AppSwitch, 102 => Key::Power, 103 => Key::Character('='),
        104 => Key::F13, 105 => Key::F14, 106 => Key::F15,
        107 => Key::F16, 108 => Key::F17, 109 => Key::F18,
        110 => Key::F19, 111 => Key::F20, 112 => Key::F21,
        113 => Key::F22, 114 => Key::F23, 115 => Key::F24,
        116 => Key::Execute, 117 => Key::Help, 118 => Key::ContextMenu,
        119 => Key::Select, 121 => Key::Again, 122 => Key::Undo,
        123 => Key::Cut, 124 => Key::Copy, 125 => Key::Paste,
        126 => Key::Find, 127 => Key::AudioVolumeMute, 128 => Key::AudioVolumeUp,
        129 => Key::AudioVolumeDown, 155 => Key::Cancel, 156 => Key::Clear,
        163 => Key::CrSel, 164 => Key::ExSel, 182 => Key::Character('('),
        183 => Key::Character(')'), 224 => Key::Control, 225 => Key::Shift,
        226 => Key::Alt, 227 => Key::Super, 228 => Key::Control,
        229 => Key::Shift, 230 => Key::Alt, 231 => Key::Super,
        259 => Key::WakeUp, 262 => Key::MediaPlay, 263 => Key::MediaPause,
        264 => Key::MediaRecord, 265 => Key::MediaFastForward, 266 => Key::MediaRewind,
        267 => Key::MediaTrackNext, 268 => Key::MediaTrackPrevious, 269 => Key::MediaStop,
        271 => Key::MediaPlayPause, 272 => Key::MediaTopMenu, 280 => Key::BrowserSearch,
        281 => Key::BrowserHome, 282 => Key::BrowserBack, 283 => Key::BrowserForward,
        284 => Key::BrowserStop, 285 => Key::BrowserRefresh, 286 => Key::BrowserFavorites,
        _ => Key::Unidentified,
    }
}

/// The logical key of a native key code under a native modifier set. Letters
/// follow the shift bits: upper case while either shift key is held. Other
/// printable keys give their own character; keys outside the table are
/// `Unidentified`.
pub open spec fn logical_key_of(keycode: u32, modifiers: u16) -> Key {
    if keycode >= SCANCODE_KEY_BASE {
        named_key_of((keycode - SCANCODE_KEY_BASE) as u32)
    } else if keycode == 0x0d {
        Key::Enter
    } else if keycode == 0x1b {
        Key::Escape
    } else if keycode == 0x08 {
        Key::Backspace
    } else if keycode == 0x09 {
        Key::Tab
    } else if keycode == 0x20 {
        Key::Space
    } else if keycode == 0x7f {
        Key::Delete
    } else if 0x61 <= keycode <= 0x7a {
        if shift_held(modifiers) {
            Key::Character(((keycode - 0x20) as u8) as char)
        } else {
            Key::Character((keycode as u8) as char)
        }
    } else if 0x21 <= keycode <= 0x7e {
        Key::Character((keycode as u8) as char)
    } else if keycode == 0xb1 {
        Key::Character('\u{b1}')
    } else {
        Key::Unidentified
    }
}

/// Translates a native key code and modifier set into a logical key. Total:
/// every pair has a result.
pub fn convert_sdl_keycode_to_key(keycode: u32, modifiers: u16) -> (r: Key)
    ensures
        r == logical_key_of(keycode, modifiers),
{
    if keycode >= SCANCODE_KEY_BASE {
        named_key(keycode - SCANCODE_KEY_BASE)
    } else if keycode == 0x0d {
        Key::Enter
    } else if keycode == 0x1b {
        Key::Escape
    } else if keycode == 0x08 {
        Key::Backspace
    } else if keycode == 0x09 {
        Key::Tab
    } else if keycode == 0x20 {
        Key::Space
    } else if keycode == 0x7f {
        Key::Delete
    } else if 0x61 <= keycode && keycode <= 0x7a {
        if modifiers & SHIFT_MODIFIERS != 0 {
            Key::Character(((keycode - 0x20) as u8) as char)
        } else {
            Key::Character((keycode as u8) as char)
        }
    } else if 0x21 <= keycode && keycode <= 0x7e {
        Key::Character((keycode as u8) as char)
    } else if keycode == 0xb1 {
        Key::Character('\u{b1}')
    } else {
        Key::Unidentified
    }
}

/// The keyboard input for a key event addressed to native window
/// `window_id`; none when that window is not registered. A missing code is
/// treated as the unknown code 0.
pub open spec fn keyboard_input_of<P>(
    entities: Map<u32, u64>,
    state: ButtonState,
    window_id: u32,
    keycode: Option<u32>,
    scancode: Option<u32>,
    keymod: u16,
    repeat: bool,
) -> Option<EngineEvent<P>> {
    if entities.contains_key(window_id) {
        Some(
            EngineEvent::KeyboardInput {
                key_code: physical_key_of(scancode.unwrap_or(0)),
                logical_key: logical_key_of(keycode.unwrap_or(0), keymod),
                state,
                repeat,
                window: entities[window_id],
            },
        )
    } else {
        None
    }
}

/// Resolves the window of a key event and translates its codes.
pub fn handle_keyboard_events<W, P>(
    windows: &Sdl3Windows<W>,
    state: ButtonState,
    window_id: u32,
    keycode: Option<u32>,
    scancode: Option<u32>,
    keymod: u16,
    repeat: bool,
) -> (r: Option<EngineEvent<P>>)
    ensures
        r == keyboard_input_of::<P>(
            windows.entities(),
            state,
            window_id,
            keycode,
            scancode,
            keymod,
            repeat,
        ),
{
    match windows.lookup_entity(WindowId(window_id)) {
        Some(window) => Some(
            EngineEvent::KeyboardInput {
                key_code: convert_sdl_scancode_to_physical_key(scancode.unwrap_or(0)),
                logical_key: convert_sdl_keycode_to_key(keycode.unwrap_or(0), keymod),
                state,
                repeat,
                window,
            },
        ),
        None => None,
    }
}

} // verus!
