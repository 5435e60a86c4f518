use bevy_sdl3::event::{AppLifecycle, ButtonState, EngineEvent, NativeEvent, WindowEvent};
use bevy_sdl3::keyboard::{handle_keyboard_events, Key, KeyCode};
use bevy_sdl3::mouse::{handle_mouse_button, handle_mouse_motion, handle_mouse_wheel, MouseButton};
use bevy_sdl3::runner::{dispatch_event, needs_setup, run_tick, runs_update, Dispatch, PluginsState};
use bevy_sdl3::window::{Sdl3Windows, WindowId};

type Motion = (f32, f32);

fn registry() -> Sdl3Windows<()> {
    let mut windows = Sdl3Windows::new();
    windows.register(WindowId(1), 77, ()).unwrap();
    windows
}

fn key_down(keycode: char, scancode: u32, keymod: u16) -> NativeEvent<Motion> {
    NativeEvent::KeyDown {
        window_id: 1,
        keycode: Some(keycode as u32),
        scancode: Some(scancode),
        keymod,
        repeat: false,
    }
}

#[test]
fn key_shift_a_motion_quit_scenario() {
    let windows = registry();
    let events = vec![
        key_down('a', 4, 0x0001),
        NativeEvent::MouseMotion { window_id: 1, motion: (5.0, -3.0) },
        NativeEvent::Quit,
    ];
    let out = run_tick(&windows, events);
    assert_eq!(
        out.actions,
        vec![
            Dispatch::Emit(EngineEvent::KeyboardInput {
                key_code: KeyCode::KeyA,
                logical_key: Key::Character('A'),
                state: ButtonState::Pressed,
                repeat: false,
                window: 77,
            }),
            Dispatch::Emit(EngineEvent::MouseMotion { window: 77, motion: (5.0, -3.0) }),
        ]
    );
    assert!(out.quit);
    assert!(!runs_update(PluginsState::Cleaned, out.quit));
}

#[test]
fn quit_first_still_dispatches_the_rest() {
    let windows = registry();
    let events: Vec<NativeEvent<Motion>> = vec![
        NativeEvent::Quit,
        NativeEvent::MouseButtonDown { window_id: 1, button: 1 },
    ];
    let out = run_tick(&windows, events);
    assert!(out.quit);
    assert_eq!(
        out.actions,
        vec![Dispatch::Emit(EngineEvent::MouseButtonInput {
            button: MouseButton::Left,
            state: ButtonState::Pressed,
            window: 77,
        })]
    );
}

#[test]
fn tick_without_quit_updates_once_wired() {
    let windows = registry();
    let out = run_tick::<(), Motion>(&windows, vec![NativeEvent::Other]);
    assert!(!out.quit);
    assert!(out.actions.is_empty());
    assert!(runs_update(PluginsState::Cleaned, out.quit));
    assert!(!runs_update(PluginsState::Ready, out.quit));
    assert!(needs_setup(PluginsState::Ready));
    assert!(needs_setup(PluginsState::Adding));
    assert!(!needs_setup(PluginsState::Cleaned));
}

#[test]
fn empty_batch() {
    let windows = registry();
    let out = run_tick::<(), Motion>(&windows, Vec::new());
    assert!(!out.quit);
    assert!(out.actions.is_empty());
}

#[test]
fn unknown_window_events_are_ignored() {
    let windows = registry();
    let events: Vec<NativeEvent<Motion>> = vec![
        NativeEvent::Window { window_id: 2, event: WindowEvent::Resized(10, 10) },
        NativeEvent::KeyUp { window_id: 2, keycode: None, scancode: None, keymod: 0, repeat: true },
        NativeEvent::MouseMotion { window_id: 2, motion: (1.0, 1.0) },
        NativeEvent::MouseButtonUp { window_id: 2, button: 3 },
        NativeEvent::MouseWheel { window_id: 2, scroll: (0.0, 1.0) },
    ];
    for e in events.iter() {
        assert_eq!(dispatch_event(&windows, *e), Dispatch::Ignore);
    }
    let out = run_tick(&windows, events);
    assert!(out.actions.is_empty());
    assert!(!out.quit);
}

#[test]
fn window_events_resolve_to_entity() {
    let windows = registry();
    let e: NativeEvent<Motion> = NativeEvent::Window { window_id: 1, event: WindowEvent::FocusGained };
    assert_eq!(
        dispatch_event(&windows, e),
        Dispatch::Window { window: 77, event: WindowEvent::FocusGained }
    );
}

#[test]
fn lifecycle_events() {
    let windows = registry();
    let cases: [(NativeEvent<Motion>, AppLifecycle); 4] = [
        (NativeEvent::AppWillEnterBackground, AppLifecycle::WillSuspend),
        (NativeEvent::AppDidEnterBackground, AppLifecycle::Suspended),
        (NativeEvent::AppWillEnterForeground, AppLifecycle::WillResume),
        (NativeEvent::AppDidEnterForeground, AppLifecycle::Running),
    ];
    for (event, phase) in cases {
        assert_eq!(dispatch_event(&windows, event), Dispatch::Emit(EngineEvent::AppLifecycle(phase)));
    }
}

#[test]
fn key_release_with_missing_codes() {
    let windows = registry();
    let out: Option<EngineEvent<Motion>> =
        handle_keyboard_events(&windows, ButtonState::Released, 1, None, None, 0, true);
    assert_eq!(
        out,
        Some(EngineEvent::KeyboardInput {
            key_code: KeyCode::Unidentified,
            logical_key: Key::Unidentified,
            state: ButtonState::Released,
            repeat: true,
            window: 77,
        })
    );
}

#[test]
fn pointer_handlers() {
    let windows = registry();
    assert_eq!(
        handle_mouse_motion(&windows, 1, (2.5f32, 1.0f32)),
        Some(EngineEvent::MouseMotion { window: 77, motion: (2.5, 1.0) })
    );
    assert_eq!(
        handle_mouse_wheel(&windows, 1, (0.0f32, -1.0f32)),
        Some(EngineEvent::MouseWheel { window: 77, scroll: (0.0, -1.0) })
    );
    let out: Option<EngineEvent<Motion>> = handle_mouse_button(&windows, 1, 5, ButtonState::Released);
    assert_eq!(
        out,
        Some(EngineEvent::MouseButtonInput {
            button: MouseButton::Forward,
            state: ButtonState::Released,
            window: 77,
        })
    );
    assert_eq!(handle_mouse_motion(&windows, 3, (0.0f32, 0.0f32)), None);
}
