use bevy_sdl3::window::{
    handle_window_events, update_windows, window_theme_of, window_title, Position, Sdl3Windows,
    SystemTheme, WindowId, WindowState, WindowTheme,
};
use bevy_sdl3::event::{EngineEvent, WindowEvent};

#[test]
fn window_id_from_u32() {
    assert_eq!(WindowId::from(7u32), WindowId(7));
}

#[test]
fn registry_starts_empty() {
    let windows: Sdl3Windows<&str> = Sdl3Windows::new();
    assert_eq!(windows.lookup_entity(WindowId(1)), None);
    assert_eq!(windows.lookup_native_id(1), None);
    assert!(windows.get_window(1).is_none());
}

#[test]
fn registry_lookups_are_inverse() {
    let mut windows: Sdl3Windows<&str> = Sdl3Windows::new();
    let pairs = [(3u32, 100u64, "a"), (9, 200, "b"), (4, 300, "c")];
    for (id, entity, w) in pairs {
        assert!(windows.register(WindowId(id), entity, w).is_ok());
        for (id2, entity2, _) in pairs {
            if let Some(e) = windows.lookup_entity(WindowId(id2)) {
                assert_eq!(windows.lookup_native_id(e), Some(WindowId(id2)));
            }
            if let Some(n) = windows.lookup_native_id(entity2) {
                assert_eq!(windows.lookup_entity(n), Some(entity2));
            }
        }
    }
    assert_eq!(windows.lookup_entity(WindowId(9)), Some(200));
    assert_eq!(windows.get_window(300), Some(&"c"));
    assert_eq!(windows.get_window_by_id(WindowId(3)), Some((100, &"a")));
}

#[test]
fn register_refuses_duplicate_id_or_entity() {
    let mut windows: Sdl3Windows<&str> = Sdl3Windows::new();
    assert_eq!(windows.register(WindowId(1), 10, "first"), Ok(()));
    assert_eq!(windows.register(WindowId(1), 11, "same id"), Err("same id"));
    assert_eq!(windows.register(WindowId(2), 10, "same entity"), Err("same entity"));
    assert_eq!(windows.lookup_entity(WindowId(1)), Some(10));
    assert_eq!(windows.lookup_entity(WindowId(2)), None);
    assert_eq!(windows.get_window(10), Some(&"first"));
}

#[test]
fn remove_window_forgets_both_directions() {
    let mut windows: Sdl3Windows<&str> = Sdl3Windows::new();
    windows.register(WindowId(5), 50, "w").unwrap();
    assert_eq!(windows.remove_window(51), None);
    assert_eq!(windows.remove_window(50), Some((WindowId(5), "w")));
    assert_eq!(windows.lookup_entity(WindowId(5)), None);
    assert_eq!(windows.lookup_native_id(50), None);
    // the pair can be registered again
    assert!(windows.register(WindowId(5), 50, "again").is_ok());
}

#[test]
fn creation_is_planned_once() {
    let mut windows: Sdl3Windows<u32> = Sdl3Windows::new();
    let declared = vec![7u64, 8, 7];
    let first = windows.windows_to_create(&declared);
    assert_eq!(first, vec![7, 8]);
    for (i, e) in first.iter().enumerate() {
        windows.register(WindowId(i as u32 + 1), *e, i as u32).unwrap();
    }
    assert_eq!(windows.windows_to_create(&declared), Vec::<u64>::new());
    assert_eq!(windows.windows_to_create(&vec![8, 9]), vec![9]);
}

#[test]
fn title_defaults() {
    assert_eq!(window_title(None), "Bevy");
    assert_eq!(window_title(Some("Game".to_string())), "Game");
}

#[test]
fn themes() {
    assert_eq!(window_theme_of(SystemTheme::Unknown), None);
    assert_eq!(window_theme_of(SystemTheme::Light), Some(WindowTheme::Light));
    assert_eq!(window_theme_of(SystemTheme::Dark), Some(WindowTheme::Dark));
}

fn state() -> WindowState {
    WindowState { physical_width: 800, physical_height: 600, position: None, focused: false }
}

#[test]
fn resize_sets_resolution_and_emits_once() {
    let mut s = state();
    let out: Option<EngineEvent<()>> = handle_window_events(&mut s, 42, WindowEvent::Resized(1024, 768));
    assert_eq!(s.physical_width, 1024);
    assert_eq!(s.physical_height, 768);
    assert_eq!(out, Some(EngineEvent::WindowResized { window: 42, width: 1024, height: 768 }));
    let out: Option<EngineEvent<()>> =
        handle_window_events(&mut s, 42, WindowEvent::PixelSizeChanged(2048, 1536));
    assert_eq!((s.physical_width, s.physical_height), (2048, 1536));
    assert_eq!(out, Some(EngineEvent::WindowResized { window: 42, width: 2048, height: 1536 }));
}

#[test]
fn move_focus_and_occlusion() {
    let mut s = state();
    let out: Option<EngineEvent<()>> = handle_window_events(&mut s, 1, WindowEvent::Moved(10, -20));
    assert_eq!(s.position, Some(Position { x: 10, y: -20 }));
    assert_eq!(out, Some(EngineEvent::WindowMoved { window: 1, x: 10, y: -20 }));
    let out: Option<EngineEvent<()>> = handle_window_events(&mut s, 1, WindowEvent::FocusGained);
    assert!(s.focused);
    assert_eq!(out, Some(EngineEvent::WindowFocused { window: 1, focused: true }));
    let out: Option<EngineEvent<()>> = handle_window_events(&mut s, 1, WindowEvent::FocusLost);
    assert!(!s.focused);
    assert_eq!(out, Some(EngineEvent::WindowFocused { window: 1, focused: false }));
    let out: Option<EngineEvent<()>> = handle_window_events(&mut s, 1, WindowEvent::Hidden);
    assert_eq!(out, Some(EngineEvent::WindowOccluded { window: 1, occluded: true }));
    let out: Option<EngineEvent<()>> = handle_window_events(&mut s, 1, WindowEvent::Exposed);
    assert_eq!(out, Some(EngineEvent::WindowOccluded { window: 1, occluded: false }));
    let out: Option<EngineEvent<()>> = handle_window_events(&mut s, 1, WindowEvent::CloseRequested);
    assert_eq!(out, Some(EngineEvent::WindowCloseRequested { window: 1 }));
    let before = s;
    let out: Option<EngineEvent<()>> = handle_window_events(&mut s, 1, WindowEvent::Minimized);
    assert_eq!(out, None);
    assert_eq!(s, before);
}

#[test]
fn update_windows_is_a_no_op() {
    update_windows();
}
