//! The decisions of the main loop: how each drained native event is routed,
//! what one tick yields, and whether the engine updates after it.
use crate::event::{window_id_of, AppLifecycle, ButtonState, EngineEvent, NativeEvent, WindowEvent};
use crate::keyboard::{handle_keyboard_events, keyboard_input_of};
use crate::mouse::{
    handle_mouse_button, handle_mouse_motion, handle_mouse_wheel, mouse_button_input_of,
    mouse_motion_of, mouse_wheel_of,
};
use crate::window::{
    window_event_output, window_state_after, Sdl3Windows, WindowId, WindowState,
};
use vstd::prelude::*;

verus! {

/// What to do with one native event.
#[derive(Clone, Copy, Debug, PartialEq)]
pub enum Dispatch<P> {
    /// Nothing: the event is of no interest, or its window is not registered.
    Ignore,
    /// Stop the loop.
    Quit,
    /// Send this event to the engine.
    Emit(EngineEvent<P>),
    /// Apply a window event to the state of window entity `window`.
    Window { window: u64, event: WindowEvent },
}

/// An optional engine event as a dispatch decision.
pub open spec fn emit_or_ignore<P>(e: Option<EngineEvent<P>>) -> Dispatch<P> {
    match e {
        Some(e) => Dispatch::Emit(e),
        None => Dispatch::Ignore,
    }
}

/// How native event `event` is routed, given the registry's native id to
/// entity map.
pub open spec fn dispatch_of<P>(entities: Map<u32, u64>, event: NativeEvent<P>) -> Dispatch<P> {
    match event {
        NativeEvent::Window { window_id, event } => if entities.contains_key(window_id) {
            Dispatch::Window { window: entities[window_id], event }
        } else {
            Dispatch::Ignore
        },
        NativeEvent::KeyDown { window_id, keycode, scancode, keymod, repeat } => emit_or_ignore(
            keyboard_input_of(
                entities,
                ButtonState::Pressed,
                window_id,
                keycode,
                scancode,
                keymod,
                repeat,
            ),
        ),
        NativeEvent::KeyUp { window_id, keycode, scancode, keymod, repeat } => emit_or_ignore(
            keyboard_input_of(
                entities,
                ButtonState::Released,
                window_id,
                keycode,
                scancode,
                keymod,
                repeat,
            ),
        ),
        NativeEvent::MouseMotion { window_id, motion } => emit_or_ignore(
            mouse_motion_of(entities, window_id, motion),
        ),
        NativeEvent::MouseButtonDown { window_id, button } => emit_or_ignore(
            mouse_button_input_of(entities, window_id, button, ButtonState::Pressed),
        ),
        NativeEvent::MouseButtonUp { window_id, button } => emit_or_ignore(
            mouse_button_input_of(entities, window_id, button, ButtonState::Released),
        ),
        NativeEvent::MouseWheel { window_id, scroll } => emit_or_ignore(
            mouse_wheel_of(entities, window_id, scroll),
        ),
        NativeEvent::AppWillEnterBackground => Dispatch::Emit(
            EngineEvent::AppLifecycle(AppLifecycle::WillSuspend),
        ),
        NativeEvent::AppDidEnterBackground => Dispatch::Emit(
            EngineEvent::AppLifecycle(AppLifecycle::Suspended),
        ),
        NativeEvent::AppWillEnterForeground => Dispatch::Emit(
            EngineEvent::AppLifecycle(AppLifecycle::WillResume),
        ),
        NativeEvent::AppDidEnterForeground => Dispatch::Emit(
            EngineEvent::AppLifecycle(AppLifecycle::Running),
        ),
        NativeEvent::Quit => Dispatch::Quit,
        NativeEvent::Other => Dispatch::Ignore,
    }
}

fn emit<P>(e: Option<EngineEvent<P>>) -> (r: Dispatch<P>)
    ensures
        r == emit_or_ignore(e),
{
    match e {
        Some(e) => Dispatch::Emit(e),
        None => Dispatch::Ignore,
    }
}

/// Routes one native event: resolves its window through the registry and
/// translates its payload.
pub fn dispatch_event<W, P>(windows: &Sdl3Windows<W>, event: NativeEvent<P>) -> (r: Dispatch<P>)
    ensures
        r == dispatch_of(windows.entities(), event),
{
    match event {
        NativeEvent::Window { window_id, event } => match windows.lookup_entity(
            WindowId(window_id),
        ) {
            Some(window) => Dispatch::Window { window, event },
            None => Dispatch::Ignore,
        },
        NativeEvent::KeyDown { window_id, keycode, scancode, keymod, repeat } => emit(
            handle_keyboard_events(
                windows,
                ButtonState::Pressed,
                window_id,
                keycode,
                scancode,
                keymod,
                repeat,
            ),
        ),
        NativeEvent::KeyUp { window_id, keycode, scancode, keymod, repeat } => emit(
            handle_keyboard_events(
                windows,
                ButtonState::Released,
                window_id,
                keycode,
                scancode,
                keymod,
                repeat,
            ),
        ),
        NativeEvent::MouseMotion { window_id, motion } => emit(
            handle_mouse_motion(windows, window_id, motion),
        ),
        NativeEvent::MouseButtonDown { window_id, button } => emit(
            handle_mouse_button(windows, window_id, button, ButtonState::Pressed),
        ),
        NativeEvent::MouseButtonUp { window_id, button } => emit(
            handle_mouse_button(windows, window_id, button, ButtonState::Released),
        ),
        NativeEvent::MouseWheel { window_id, scroll } => emit(
            handle_mouse_wheel(windows, window_id, scroll),
        ),
        NativeEvent::AppWillEnterBackground => Dispatch::Emit(
            EngineEvent::AppLifecycle(AppLifecycle::WillSuspend),
        ),
        NativeEvent::AppDidEnterBackground => Dispatch::Emit(
            EngineEvent::AppLifecycle(AppLifecycle::Suspended),
        ),
        NativeEvent::AppWillEnterForeground => Dispatch::Emit(
            EngineEvent::AppLifecycle(AppLifecycle::WillResume),
        ),
        NativeEvent::AppDidEnterForeground => Dispatch::Emit(
            EngineEvent::AppLifecycle(AppLifecycle::Running),
        ),
        NativeEvent::Quit => Dispatch::Quit,
        NativeEvent::Other => Dispatch::Ignore,
    }
}

/// Lookup-miss safety: an event addressed to a window that was never
/// registered is ignored, leaving engine state as it was.
pub proof fn lemma_unknown_window_ignored<P>(entities: Map<u32, u64>, event: NativeEvent<P>)
    requires
        window_id_of(event) is Some,
        !entities.contains_key(window_id_of(event)->0),
    ensures
        dispatch_of(entities, event) == Dispatch::<P>::Ignore,
{
}

/// The decisions of a drained batch that reach the engine, in order: every
/// event but the ignored ones and the quit requests.
pub open spec fn actions_of<P>(entities: Map<u32, u64>, events: Seq<NativeEvent<P>>) -> Seq<
    Dispatch<P>,
>
    decreases events.len(),
{
    if events.len() == 0 {
        Seq::empty()
    } else {
        let rest = actions_of(entities, events.drop_last());
        let d = dispatch_of(entities, events.last());
        if d is Ignore || d is Quit {
            rest
        } else {
            rest.push(d)
        }
    }
}

/// Whether a batch holds a quit request.
pub open spec fn quits<P>(events: Seq<NativeEvent<P>>) -> bool
    decreases events.len(),
{
    events.len() > 0 && (quits(events.drop_last()) || events.last() is Quit)
}

/// What one tick of the loop produced.
pub struct TickOutcome<P> {
    /// The decisions to carry out, in the order the events came.
    pub actions: Vec<Dispatch<P>>,
    /// Whether the batch held a quit request.
    pub quit: bool,
}

/// Routes a whole drained batch. Every event is dispatched, also those after
/// a quit request; the quit is recorded rather than acted on mid-batch.
pub fn run_tick<W, P>(windows: &Sdl3Windows<W>, events: Vec<NativeEvent<P>>) -> (r: TickOutcome<P>)
    ensures
        r.actions@ == actions_of(windows.entities(), events@),
        r.quit == quits(events@),
{
    let ghost all = events@;
    let n = events.len();
    let mut events = events;
    let mut actions: Vec<Dispatch<P>> = Vec::new();
    let mut quit = false;
    let mut i: usize = 0;
    while i < n
        invariant
            n == all.len(),
            i <= n,
            events@ == all.subrange(i as int, n as int),
            actions@ == actions_of(windows.entities(), all.take(i as int)),
            quit == quits(all.take(i as int)),
        decreases n - i,
    {
        let event = events.remove(0);
        proof {
            assert(event == all[i as int]);
            assert(all.take(i + 1).drop_last() == all.take(i as int));
            assert(all.take(i + 1).last() == all[i as int]);
            assert(events@ == all.subrange(i + 1, n as int));
        }
        match dispatch_event(windows, event) {
            Dispatch::Ignore => {},
            Dispatch::Quit => {
                quit = true;
            },
            d => {
                actions.push(d);
            },
        }
        i = i + 1;
    }
    proof {
        assert(all.take(n as int) == all);
    }
    TickOutcome { actions, quit }
}

/// How far the engine's plugins are wired up.
#[derive(Clone, Copy, Debug, PartialEq, Eq, Structural)]
pub enum PluginsState {
    Adding,
    Ready,
    Finished,
    Cleaned,
}

/// Whether a tick starts by finishing and cleaning up the plugins.
pub fn needs_setup(plugins: PluginsState) -> (r: bool)
    ensures
        r == (plugins != PluginsState::Cleaned),
{
    !matches!(plugins, PluginsState::Cleaned)
}

/// Whether the engine runs an update after a tick: only once its plugins are
/// fully wired, and never in a tick that saw a quit request.
pub fn runs_update(plugins: PluginsState, quit: bool) -> (r: bool)
    ensures
        r == (plugins == PluginsState::Cleaned && !quit),
{
    matches!(plugins, PluginsState::Cleaned) && !quit
}

proof fn lemma_actions_concat<P>(
    entities: Map<u32, u64>,
    a: Seq<NativeEvent<P>>,
    b: Seq<NativeEvent<P>>,
)
    ensures
        actions_of(entities, a + b) == actions_of(entities, a) + actions_of(entities, b),
    decreases b.len(),
{
    if b.len() == 0 {
        assert(a + b == a);
        assert(actions_of(entities, b) == Seq::<Dispatch<P>>::empty());
        assert(actions_of(entities, a) + Seq::<Dispatch<P>>::empty() == actions_of(entities, a));
    } else {
        lemma_actions_concat(entities, a, b.drop_last());
        assert((a + b).drop_last() == a + b.drop_last());
        assert((a + b).last() == b.last());
        let d = dispatch_of(entities, b.last());
        if !(d is Ignore || d is Quit) {
            assert(actions_of(entities, a) + actions_of(entities, b.drop_last()).push(d) == (
            actions_of(entities, a) + actions_of(entities, b.drop_last())).push(d));
        }
    }
}

proof fn lemma_quit_found<P>(events: Seq<NativeEvent<P>>, i: int)
    requires
        0 <= i < events.len(),
        events[i] is Quit,
    ensures
        quits(events),
    decreases events.len(),
{
    if i < events.len() - 1 {
        lemma_quit_found(events.drop_last(), i);
    }
}

/// Quit terminates: a quit request anywhere in a drained batch ends the loop
/// after the tick, no engine update runs in that tick, and every other event
/// of the batch, before and after the request, is still dispatched in order.
pub proof fn lemma_quit_ends_tick<P>(
    entities: Map<u32, u64>,
    events: Seq<NativeEvent<P>>,
    i: int,
    plugins: PluginsState,
)
    requires
        0 <= i < events.len(),
        events[i] is Quit,
    ensures
        quits(events),
        !(plugins == PluginsState::Cleaned && !quits(events)),
        actions_of(entities, events) == actions_of(entities, events.take(i)) + actions_of(
            entities,
            events.skip(i + 1),
        ),
{
    lemma_quit_found(events, i);
    let head = events.take(i + 1);
    let tail = events.skip(i + 1);
    assert(events == head + tail);
    lemma_actions_concat(entities, head, tail);
    assert(head.drop_last() == events.take(i));
    assert(head.last() == events[i]);
}

/// Resize propagation: a native resize of a registered window is routed to
/// that window's entity, sets its physical resolution to exactly the
/// reported size while leaving the rest of its state alone, and emits one
/// resize event with that size.
pub proof fn lemma_resize_propagates<P>(
    entities: Map<u32, u64>,
    window_id: u32,
    state: WindowState,
    width: i32,
    height: i32,
)
    requires
        entities.contains_key(window_id),
        0 <= width,
        0 <= height,
    ensures
        ({
            let resize = WindowEvent::Resized(width, height);
            let window = entities[window_id];
            let after = window_state_after(state, resize);
            &&& dispatch_of(entities, NativeEvent::<P>::Window { window_id, event: resize })
                == Dispatch::<P>::Window { window, event: resize }
            &&& after.physical_width == width
            &&& after.physical_height == height
            &&& after.position == state.position
            &&& after.focused == state.focused
            &&& window_event_output::<P>(window, resize) == Some(
                EngineEvent::<P>::WindowResized { window, width, height },
            )
        }),
{
}

} // verus!
