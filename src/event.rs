//! Native events as the backend delivers them, and the engine events they
//! translate into.
//!
//! Pointer coordinates travel as an opaque payload `P`: the library routes
//! them to the right window without reading them.
use crate::keyboard::{Key, KeyCode};
use crate::mouse::MouseButton;
use vstd::prelude::*;

verus! {

/// Pressed or released.
#[derive(Clone, Copy, Debug, PartialEq, Eq, Structural)]
pub enum ButtonState {
    Pressed,
    Released,
}

/// What happened to a native window.
#[derive(Clone, Copy, Debug, PartialEq, Eq, Structural)]
pub enum WindowEvent {
    Shown,
    Hidden,
    Exposed,
    Moved(i32, i32),
    Resized(i32, i32),
    PixelSizeChanged(i32, i32),
    MouseEnter,
    MouseLeave,
    FocusGained,
    FocusLost,
    CloseRequested,
    Minimized,
    Maximized,
    Restored,
    Other,
}

/// One event drained from the native queue.
#[derive(Clone, Copy, Debug, PartialEq)]
pub enum NativeEvent<P> {
    Window { window_id: u32, event: WindowEvent },
    KeyDown {
        window_id: u32,
        keycode: Option<u32>,
        scancode: Option<u32>,
        keymod: u16,
        repeat: bool,
    },
    KeyUp {
        window_id: u32,
        keycode: Option<u32>,
        scancode: Option<u32>,
        keymod: u16,
        repeat: bool,
    },
    MouseMotion { window_id: u32, motion: P },
    MouseButtonDown { window_id: u32, button: u8 },
    MouseButtonUp { window_id: u32, button: u8 },
    MouseWheel { window_id: u32, scroll: P },
    AppWillEnterBackground,
    AppDidEnterBackground,
    AppWillEnterForeground,
    AppDidEnterForeground,
    Quit,
    Other,
}

/// The native window an event is addressed to, if it has one.
pub open spec fn window_id_of<P>(event: NativeEvent<P>) -> Option<u32> {
    match event {
        NativeEvent::Window { window_id, .. } => Some(window_id),
        NativeEvent::KeyDown { window_id, .. } => Some(window_id),
        NativeEvent::KeyUp { window_id, .. } => Some(window_id),
        NativeEvent::MouseMotion { window_id, .. } => Some(window_id),
        NativeEvent::MouseButtonDown { window_id, .. } => Some(window_id),
        NativeEvent::MouseButtonUp { window_id, .. } => Some(window_id),
        NativeEvent::MouseWheel { window_id, .. } => Some(window_id),
        _ => None,
    }
}

/// Application lifecycle transitions.
#[derive(Clone, Copy, Debug, PartialEq, Eq, Structural)]
pub enum AppLifecycle {
    WillSuspend,
    Suspended,
    WillResume,
    Running,
}

/// An event for the engine. `window` is the entity of the window concerned.
#[derive(Clone, Copy, Debug, PartialEq)]
pub enum EngineEvent<P> {
    KeyboardInput {
        key_code: KeyCode,
        logical_key: Key,
        state: ButtonState,
        repeat: bool,
        window: u64,
    },
    /// Relative motion and the cursor position; the engine emits both a
    /// motion and a cursor-moved event from it.
    MouseMotion { window: u64, motion: P },
    MouseButtonInput { button: MouseButton, state: ButtonState, window: u64 },
    /// Scroll amounts, always in pixels.
    MouseWheel { window: u64, scroll: P },
    WindowOccluded { window: u64, occluded: bool },
    WindowMoved { window: u64, x: i32, y: i32 },
    WindowResized { window: u64, width: i32, height: i32 },
    CursorEntered { window: u64 },
    CursorLeft { window: u64 },
    WindowFocused { window: u64, focused: bool },
    WindowCloseRequested { window: u64 },
    AppLifecycle(AppLifecycle),
}

} // verus!
