//! Pointer events: button translation and window resolution.
use crate::event::{ButtonState, EngineEvent};
use crate::window::{Sdl3Windows, WindowId};
use vstd::prelude::*;

verus! {

/// Native button number of the primary (left) button.
pub const BUTTON_LEFT: u8 = 1;
pub const BUTTON_MIDDLE: u8 = 2;
pub const BUTTON_RIGHT: u8 = 3;
pub const BUTTON_X1: u8 = 4;
pub const BUTTON_X2: u8 = 5;

/// Engine-side pointer button.
#[derive(Clone, Copy, Debug, PartialEq, Eq, Structural)]
pub enum MouseButton {
    Left,
    Right,
    Middle,
    Back,
    Forward,
    Other(u16),
}

/// The engine button for a native button number.
pub open spec fn mouse_button_of(button: u8) -> MouseButton {
    if button == BUTTON_LEFT {
        MouseButton::Left
    } else if button == BUTTON_MIDDLE {
        MouseButton::Middle
    } else if button == BUTTON_RIGHT {
        MouseButton::Right
    } else if button == BUTTON_X1 {
        MouseButton::Back
    } else if button == BUTTON_X2 {
        MouseButton::Forward
    } else {
        MouseButton::Other(button as u16)
    }
}

/// Translates a native button number; numbers without a named button land in
/// `Other`, carrying the number.
pub fn convert_sdl_mouse_button(button: u8) -> (r: MouseButton)
    ensures
        r == mouse_button_of(button),
{
    match button {
        BUTTON_LEFT => MouseButton::Left,
        BUTTON_MIDDLE => MouseButton::Middle,
        BUTTON_RIGHT => MouseButton::Right,
        BUTTON_X1 => MouseButton::Back,
        BUTTON_X2 => MouseButton::Forward,
        _ => MouseButton::Other(button as u16),
    }
}

/// The engine event carrying payload `motion` of a pointer motion in native
/// window `window_id`; none when that window is not registered.
pub open spec fn mouse_motion_of<P>(entities: Map<u32, u64>, window_id: u32, motion: P) -> Option<
    EngineEvent<P>,
> {
    if entities.contains_key(window_id) {
        Some(EngineEvent::MouseMotion { window: entities[window_id], motion })
    } else {
        None
    }
}

/// Resolves the window of a pointer motion.
pub fn handle_mouse_motion<W, P>(windows: &Sdl3Windows<W>, window_id: u32, motion: P) -> (r:
    Option<EngineEvent<P>>)
    ensures
        r == mouse_motion_of(windows.entities(), window_id, motion),
{
    match windows.lookup_entity(WindowId(window_id)) {
        Some(window) => Some(EngineEvent::MouseMotion { window, motion }),
        None => None,
    }
}

/// The button input for native button `button` in native window
/// `window_id`; none when that window is not registered.
pub open spec fn mouse_button_input_of<P>(
    entities: Map<u32, u64>,
    window_id: u32,
    button: u8,
    state: ButtonState,
) -> Option<EngineEvent<P>> {
    if entities.contains_key(window_id) {
        Some(
            EngineEvent::MouseButtonInput {
                button: mouse_button_of(button),
                state,
                window: entities[window_id],
            },
        )
    } else {
        None
    }
}

/// Resolves the window of a button press or release and translates the
/// button.
pub fn handle_mouse_button<W, P>(
    windows: &Sdl3Windows<W>,
    window_id: u32,
    button: u8,
    state: ButtonState,
) -> (r: Option<EngineEvent<P>>)
    ensures
        r == mouse_button_input_of::<P>(windows.entities(), window_id, button, state),
{
    match windows.lookup_entity(WindowId(window_id)) {
        Some(window) => Some(
            EngineEvent::MouseButtonInput { button: convert_sdl_mouse_button(button), state, window },
        ),
        None => None,
    }
}

/// The scroll event carrying payload `scroll` in native window `window_id`;
/// none when that window is not registered.
pub open spec fn mouse_wheel_of<P>(entities: Map<u32, u64>, window_id: u32, scroll: P) -> Option<
    EngineEvent<P>,
> {
    if entities.contains_key(window_id) {
        Some(EngineEvent::MouseWheel { window: entities[window_id], scroll })
    } else {
        None
    }
}

/// Resolves the window of a wheel scroll.
pub fn handle_mouse_wheel<W, P>(windows: &Sdl3Windows<W>, window_id: u32, scroll: P) -> (r:
    Option<EngineEvent<P>>)
    ensures
        r == mouse_wheel_of(windows.entities(), window_id, scroll),
{
    match windows.lookup_entity(WindowId(window_id)) {
        Some(window) => Some(EngineEvent::MouseWheel { window, scroll }),
        None => None,
    }
}

} // verus!
