//! Windows: the identity registry (a two-way map between native window ids
//! and engine entities, owning the native window objects), the decisions of
//! window creation, and the engine-side effects of native window events.
use std::collections::{HashMap, HashSet};
use crate::event::{EngineEvent, WindowEvent};
use vstd::prelude::*;

verus! {

broadcast use vstd::std_specs::hash::group_hash_axioms;

/// Identifier of a native window, as the backend numbers them.
#[derive(Debug, Hash, PartialEq, Eq, Copy, Clone, Structural)]
pub struct WindowId(pub u32);

impl From<u32> for WindowId {
    fn from(value: u32) -> (r: WindowId)
        ensures
            r == WindowId(value),
    {
        WindowId(value)
    }
}

impl vstd::std_specs::convert::FromSpecImpl<u32> for WindowId {
    open spec fn obeys_from_spec() -> bool {
        true
    }

    open spec fn from_spec(v: u32) -> WindowId {
        WindowId(v)
    }
}

/// `fwd` and `bwd` are exact inverses of each other.
pub open spec fn is_bijection(fwd: Map<u32, u64>, bwd: Map<u64, u32>) -> bool {
    &&& forall|id: u32| #[trigger]
        fwd.contains_key(id) ==> bwd.contains_key(fwd[id]) && bwd[fwd[id]] == id
    &&& forall|e: u64| #[trigger]
        bwd.contains_key(e) ==> fwd.contains_key(bwd[e]) && fwd[bwd[e]] == e
}

/// Native id to entity after registering `pairs` in order into an empty
/// registry.
pub open spec fn entities_after(pairs: Seq<(u32, u64)>) -> Map<u32, u64>
    decreases pairs.len(),
{
    if pairs.len() == 0 {
        Map::empty()
    } else {
        let last = pairs.last();
        entities_after(pairs.drop_last()).insert(last.0, last.1)
    }
}

/// Entity to native id after registering `pairs` in order into an empty
/// registry.
pub open spec fn native_ids_after(pairs: Seq<(u32, u64)>) -> Map<u64, u32>
    decreases pairs.len(),
{
    if pairs.len() == 0 {
        Map::empty()
    } else {
        let last = pairs.last();
        native_ids_after(pairs.drop_last()).insert(last.1, last.0)
    }
}

/// Registering a native id and an entity, neither of them present yet, into
/// a bijection keeps it a bijection.
pub proof fn lemma_register_keeps_bijection(
    fwd: Map<u32, u64>,
    bwd: Map<u64, u32>,
    id: u32,
    entity: u64,
)
    requires
        is_bijection(fwd, bwd),
        !fwd.contains_key(id),
        !bwd.contains_key(entity),
    ensures
        is_bijection(fwd.insert(id, entity), bwd.insert(entity, id)),
{
    let f = fwd.insert(id, entity);
    let b = bwd.insert(entity, id);
    assert forall|i: u32| #[trigger] f.contains_key(i) implies b.contains_key(f[i]) && b[f[i]]
        == i by {
        if i != id {
            assert(fwd.contains_key(i));
        }
    }
    assert forall|e: u64| #[trigger] b.contains_key(e) implies f.contains_key(b[e]) && f[b[e]]
        == e by {
        if e != entity {
            assert(bwd.contains_key(e));
        }
    }
}

/// Registry bijection: for any sequence of registrations with pairwise
/// distinct native ids and pairwise distinct entities, looking up the native
/// id of a registered entity and then that id's entity gives back the
/// entity, and looking up the entity of a registered id and then its native
/// id gives back the id.
pub proof fn lemma_registrations_stay_inverse(pairs: Seq<(u32, u64)>)
    requires
        forall|i: int, j: int|
            0 <= i < j < pairs.len() ==> pairs[i].0 != pairs[j].0 && pairs[i].1 != pairs[j].1,
    ensures
        is_bijection(entities_after(pairs), native_ids_after(pairs)),
        forall|e: u64| #[trigger]
            native_ids_after(pairs).contains_key(e) ==> entities_after(pairs)[native_ids_after(
                pairs,
            )[e]] == e,
        forall|id: u32| #[trigger]
            entities_after(pairs).contains_key(id) ==> native_ids_after(pairs)[entities_after(
                pairs,
            )[id]] == id,
    decreases pairs.len(),
{
    if pairs.len() > 0 {
        let prefix = pairs.drop_last();
        let last = pairs.last();
        lemma_registrations_stay_inverse(prefix);
        lemma_registered_pairs(prefix);
        assert(!entities_after(prefix).contains_key(last.0)) by {
            if entities_after(prefix).contains_key(last.0) {
                let k = choose|k: int| 0 <= k < prefix.len() && prefix[k].0 == last.0;
                assert(prefix[k] == pairs[k]);
                assert(pairs[k].0 == pairs[pairs.len() - 1].0);
            }
        }
        assert(!native_ids_after(prefix).contains_key(last.1)) by {
            if native_ids_after(prefix).contains_key(last.1) {
                let k = choose|k: int| 0 <= k < prefix.len() && prefix[k].1 == last.1;
                assert(prefix[k] == pairs[k]);
                assert(pairs[k].1 == pairs[pairs.len() - 1].1);
            }
        }
        lemma_register_keeps_bijection(
            entities_after(prefix),
            native_ids_after(prefix),
            last.0,
            last.1,
        );
    }
}

/// Every key of the maps built from `pairs` comes from one of the pairs.
proof fn lemma_registered_pairs(pairs: Seq<(u32, u64)>)
    ensures
        forall|id: u32| #[trigger]
            entities_after(pairs).contains_key(id) ==> exists|k: int|
                0 <= k < pairs.len() && pairs[k].0 == id,
        forall|e: u64| #[trigger]
            native_ids_after(pairs).contains_key(e) ==> exists|k: int|
                0 <= k < pairs.len() && pairs[k].1 == e,
    decreases pairs.len(),
{
    if pairs.len() > 0 {
        let prefix = pairs.drop_last();
        lemma_registered_pairs(prefix);
        assert forall|id: u32| #[trigger] entities_after(pairs).contains_key(id) implies exists|
            k: int,
        | 0 <= k < pairs.len() && pairs[k].0 == id by {
            if id == pairs.last().0 {
                assert(pairs[pairs.len() - 1].0 == id);
            } else {
                assert(entities_after(pairs) == entities_after(prefix).insert(
                    pairs.last().0,
                    pairs.last().1,
                ));
                assert(entities_after(prefix).contains_key(id));
                let k = choose|k: int| 0 <= k < prefix.len() && prefix[k].0 == id;
                assert(prefix[k] == pairs[k]);
            }
        }
        assert forall|e: u64| #[trigger] native_ids_after(pairs).contains_key(e) implies exists|
            k: int,
        | 0 <= k < pairs.len() && pairs[k].1 == e by {
            if e == pairs.last().1 {
                assert(pairs[pairs.len() - 1].1 == e);
            } else {
                assert(native_ids_after(pairs) == native_ids_after(prefix).insert(
                    pairs.last().1,
                    pairs.last().0,
                ));
                assert(native_ids_after(prefix).contains_key(e));
                let k = choose|k: int| 0 <= k < prefix.len() && prefix[k].1 == e;
                assert(prefix[k] == pairs[k]);
            }
        }
    }
}

/// Maps engine entities (by their bit representation) to native windows of
/// type `W`, and back. Each native window belongs to exactly one entity and
/// each entity has at most one native window.
pub struct Sdl3Windows<W> {
    windows: HashMap<u32, W>,
    entity_to_winit: HashMap<u64, u32>,
    winit_to_entity: HashMap<u32, u64>,
}

impl<W> Sdl3Windows<W> {
    /// Native id to entity.
    pub closed spec fn entities(&self) -> Map<u32, u64> {
        self.winit_to_entity@
    }

    /// Entity to native id.
    pub closed spec fn native_ids(&self) -> Map<u64, u32> {
        self.entity_to_winit@
    }

    /// Native id to the native window object.
    pub closed spec fn handles(&self) -> Map<u32, W> {
        self.windows@
    }

    /// The two maps are exact inverses, and every registered native id owns
    /// a window object.
    pub open spec fn wf(&self) -> bool {
        &&& is_bijection(self.entities(), self.native_ids())
        &&& self.handles().dom() == self.entities().dom()
    }

    /// An empty registry.
    pub fn new() -> (r: Self)
        ensures
            r.wf(),
            r.entities() == Map::<u32, u64>::empty(),
            r.native_ids() == Map::<u64, u32>::empty(),
            r.handles() == Map::<u32, W>::empty(),
    {
        Sdl3Windows {
            windows: HashMap::new(),
            entity_to_winit: HashMap::new(),
            winit_to_entity: HashMap::new(),
        }
    }

    /// Records that native window `id`, object `window`, belongs to `entity`.
    /// Refused, handing the window back, when the id or the entity is already
    /// registered; the registry is then unchanged.
    pub fn register(&mut self, id: WindowId, entity: u64, window: W) -> (r: Result<(), W>)
        requires
            old(self).wf(),
        ensures
            final(self).wf(),
            r.is_ok() <==> !old(self).entities().contains_key(id.0)
                && !old(self).native_ids().contains_key(entity),
            r.is_ok() ==> {
                &&& final(self).entities() == old(self).entities().insert(id.0, entity)
                &&& final(self).native_ids() == old(self).native_ids().insert(entity, id.0)
                &&& final(self).handles() == old(self).handles().insert(id.0, window)
            },
            r.is_err() ==> {
                &&& *final(self) == *old(self)
                &&& r == Err::<(), W>(window)
            },
    {
        if self.winit_to_entity.contains_key(&id.0) || self.entity_to_winit.contains_key(&entity) {
            return Err(window);
        }
        self.windows.insert(id.0, window);
        self.entity_to_winit.insert(entity, id.0);
        self.winit_to_entity.insert(id.0, entity);
        proof {
            lemma_register_keeps_bijection(
                old(self).entities(),
                old(self).native_ids(),
                id.0,
                entity,
            );
            assert(self.handles().dom() =~= self.entities().dom());
        }
        Ok(())
    }

    /// The entity that owns native window `id`, if it is registered.
    pub fn lookup_entity(&self, id: WindowId) -> (r: Option<u64>)
        ensures
            r == (if self.entities().contains_key(id.0) {
                Some(self.entities()[id.0])
            } else {
                None::<u64>
            }),
    {
        match self.winit_to_entity.get(&id.0) {
            Some(e) => Some(*e),
            None => None,
        }
    }

    /// The native window id registered for `entity`, if any.
    pub fn lookup_native_id(&self, entity: u64) -> (r: Option<WindowId>)
        ensures
            r == (if self.native_ids().contains_key(entity) {
                Some(WindowId(self.native_ids()[entity]))
            } else {
                None::<WindowId>
            }),
    {
        match self.entity_to_winit.get(&entity) {
            Some(id) => Some(WindowId(*id)),
            None => None,
        }
    }

    /// The native window object of `entity`, if it has one.
    pub fn get_window(&self, entity: u64) -> (r: Option<&W>)
        requires
            self.wf(),
        ensures
            r == (if self.native_ids().contains_key(entity) {
                Some(&self.handles()[self.native_ids()[entity]])
            } else {
                None::<&W>
            }),
    {
        match self.entity_to_winit.get(&entity) {
            Some(id) => self.windows.get(id),
            None => None,
        }
    }

    /// The entity and native window object registered under native id `id`.
    pub fn get_window_by_id(&self, id: WindowId) -> (r: Option<(u64, &W)>)
        requires
            self.wf(),
        ensures
            r == (if self.entities().contains_key(id.0) {
                Some((self.entities()[id.0], &self.handles()[id.0]))
            } else {
                None::<(u64, &W)>
            }),
    {
        match self.winit_to_entity.get(&id.0) {
            Some(e) => match self.windows.get(&id.0) {
                Some(w) => Some((*e, w)),
                None => None,
            },
            None => None,
        }
    }

    /// Removes the window registered for `entity`, handing back its native id
    /// and window object. Absent entities leave the registry unchanged.
    pub fn remove_window(&mut self, entity: u64) -> (r: Option<(WindowId, W)>)
        requires
            old(self).wf(),
        ensures
            final(self).wf(),
            match r {
                Some((id, w)) => {
                    &&& old(self).native_ids().contains_key(entity)
                    &&& id.0 == old(self).native_ids()[entity]
                    &&& w == old(self).handles()[id.0]
                    &&& final(self).entities() == old(self).entities().remove(id.0)
                    &&& final(self).native_ids() == old(self).native_ids().remove(entity)
                    &&& final(self).handles() == old(self).handles().remove(id.0)
                },
                None => {
                    &&& !old(self).native_ids().contains_key(entity)
                    &&& final(self).entities() == old(self).entities()
                    &&& final(self).native_ids() == old(self).native_ids()
                    &&& final(self).handles() == old(self).handles()
                },
            },
    {
        let id = match self.entity_to_winit.remove(&entity) {
            Some(id) => id,
            None => return None,
        };
        self.winit_to_entity.remove(&id);
        let w = self.windows.remove(&id);
        proof {
            let f = self.entities();
            let b = self.native_ids();
            assert forall|i: u32| #[trigger] f.contains_key(i) implies b.contains_key(f[i])
                && b[f[i]] == i by {
                assert(old(self).entities().contains_key(i));
            }
            assert forall|e: u64| #[trigger] b.contains_key(e) implies f.contains_key(b[e])
                && f[b[e]] == e by {
                assert(old(self).native_ids().contains_key(e));
            }
            assert(self.handles().dom() =~= self.entities().dom());
        }
        match w {
            Some(w) => Some((WindowId(id), w)),
            None => None,
        }
    }

    /// Whether `entity` is declared in `declared` and has no native window yet.
    pub open spec fn wants_window(&self, declared: Seq<u64>, entity: u64) -> bool {
        declared.contains(entity) && !self.native_ids().contains_key(entity)
    }

    /// The declared entities that still need a native window, each once, in
    /// order of first declaration.
    pub fn windows_to_create(&self, declared: &Vec<u64>) -> (r: Vec<u64>)
        ensures
            r@.no_duplicates(),
            forall|e: u64| r@.contains(e) <==> self.wants_window(declared@, e),
    {
        let mut out: Vec<u64> = Vec::new();
        let mut seen: HashSet<u64> = HashSet::new();
        let mut i: usize = 0;
        while i < declared.len()
            invariant
                0 <= i <= declared.len(),
                out@.no_duplicates(),
                forall|e: u64| out@.contains(e) <==> seen@.contains(e),
                forall|e: u64|
                    out@.contains(e) <==> self.wants_window(declared@.take(i as int), e),
            decreases declared.len() - i,
        {
            let e = declared[i];
            proof {
                assert(declared@.take(i + 1) == declared@.take(i as int).push(e));
            }
            let ghost prev = out@;
            let registered = self.entity_to_winit.contains_key(&e);
            let already = seen.contains(&e);
            if !registered && !already {
                seen.insert(e);
                out.push(e);
            }
            proof {
                assert forall|x: u64| out@.contains(x) <==> (prev.contains(x) || (x == e
                    && !registered)) by {
                    if out@.contains(x) && !prev.contains(x) {
                        let k = choose|k: int| 0 <= k < out@.len() && out@[k] == x;
                        assert(k == prev.len());
                    }
                    if !registered && x == e && !already {
                        assert(out@[prev.len() as int] == e);
                    }
                    if !registered && x == e && already {
                        assert(prev.contains(e));
                    }
                    if prev.contains(x) {
                        let k = choose|k: int| 0 <= k < prev.len() && prev[k] == x;
                        assert(out@[k] == x);
                    }
                }
                let before = declared@.take(i as int);
                let after = declared@.take(i + 1);
                assert forall|x: u64| after.contains(x) <==> (before.contains(x) || x == e) by {
                    if after.contains(x) && x != e {
                        let k = choose|k: int| 0 <= k < after.len() && after[k] == x;
                        assert(before[k] == x);
                    }
                    if x == e {
                        assert(after[i as int] == e);
                    }
                    if before.contains(x) {
                        let k = choose|k: int| 0 <= k < before.len() && before[k] == x;
                        assert(after[k] == x);
                    }
                }
                assert forall|x: u64| out@.contains(x) <==> self.wants_window(after, x) by {
                    assert(prev.contains(x) <==> self.wants_window(before, x));
                }
            }
            i = i + 1;
        }
        proof {
            assert(declared@.take(declared.len() as int) == declared@);
        }
        out
    }
}

/// Idempotent window creation: once an entity has a native window, no later
/// lifecycle step asks for another one for it, whatever is declared.
pub proof fn lemma_no_second_window<W>(windows: &Sdl3Windows<W>, declared: Seq<u64>, entity: u64)
    requires
        windows.native_ids().contains_key(entity),
    ensures
        !windows.wants_window(declared, entity),
{
}

/// Title a native window gets: the declared name, or a placeholder.
pub fn window_title(name: Option<String>) -> (r: String)
    ensures
        r@ == (match name {
            Some(n) => n@,
            None => "Bevy"@,
        }),
{
    match name {
        Some(n) => n,
        None => "Bevy".to_owned(),
    }
}

/// The theme the native system reports.
#[derive(Clone, Copy, Debug, PartialEq, Eq, Structural)]
pub enum SystemTheme {
    Unknown,
    Light,
    Dark,
}

/// The engine's window theme.
#[derive(Clone, Copy, Debug, PartialEq, Eq, Structural)]
pub enum WindowTheme {
    Light,
    Dark,
}

/// The engine theme for a system theme; an unknown one sets none.
pub fn window_theme_of(theme: SystemTheme) -> (r: Option<WindowTheme>)
    ensures
        r == (match theme {
            SystemTheme::Unknown => None,
            SystemTheme::Light => Some(WindowTheme::Light),
            SystemTheme::Dark => Some(WindowTheme::Dark),
        }),
{
    match theme {
        SystemTheme::Unknown => None,
        SystemTheme::Light => Some(WindowTheme::Light),
        SystemTheme::Dark => Some(WindowTheme::Dark),
    }
}

/// A position in physical pixels.
#[derive(Clone, Copy, Debug, PartialEq, Eq, Structural)]
pub struct Position {
    pub x: i32,
    pub y: i32,
}

/// The engine-side state of a window that native window events update.
#[derive(Clone, Copy, Debug, PartialEq, Eq, Structural)]
pub struct WindowState {
    pub physical_width: u32,
    pub physical_height: u32,
    /// Set once the native window reports where it is.
    pub position: Option<Position>,
    pub focused: bool,
}

/// The state after a native window event: moves set the position, resizes
/// the physical resolution, focus changes the focus flag.
pub open spec fn window_state_after(state: WindowState, event: WindowEvent) -> WindowState {
    match event {
        WindowEvent::Moved(x, y) => WindowState { position: Some(Position { x, y }), ..state },
        WindowEvent::Resized(w, h) => WindowState {
            physical_width: w as u32,
            physical_height: h as u32,
            ..state
        },
        WindowEvent::PixelSizeChanged(w, h) => WindowState {
            physical_width: w as u32,
            physical_height: h as u32,
            ..state
        },
        WindowEvent::FocusGained => WindowState { focused: true, ..state },
        WindowEvent::FocusLost => WindowState { focused: false, ..state },
        _ => state,
    }
}

/// The engine event a native window event emits for window entity `window`.
pub open spec fn window_event_output<P>(window: u64, event: WindowEvent) -> Option<EngineEvent<P>> {
    match event {
        WindowEvent::Shown => Some(EngineEvent::WindowOccluded { window, occluded: false }),
        WindowEvent::Hidden => Some(EngineEvent::WindowOccluded { window, occluded: true }),
        WindowEvent::Exposed => Some(EngineEvent::WindowOccluded { window, occluded: false }),
        WindowEvent::Moved(x, y) => Some(EngineEvent::WindowMoved { window, x, y }),
        WindowEvent::Resized(w, h) => Some(
            EngineEvent::WindowResized { window, width: w, height: h },
        ),
        WindowEvent::PixelSizeChanged(w, h) => Some(
            EngineEvent::WindowResized { window, width: w, height: h },
        ),
        WindowEvent::MouseEnter => Some(EngineEvent::CursorEntered { window }),
        WindowEvent::MouseLeave => Some(EngineEvent::CursorLeft { window }),
        WindowEvent::FocusGained => Some(EngineEvent::WindowFocused { window, focused: true }),
        WindowEvent::FocusLost => Some(EngineEvent::WindowFocused { window, focused: false }),
        WindowEvent::CloseRequested => Some(EngineEvent::WindowCloseRequested { window }),
        _ => None,
    }
}

/// Applies a native window event to the state of window entity `window` and
/// returns the engine event it emits.
pub fn handle_window_events<P>(state: &mut WindowState, window: u64, event: WindowEvent) -> (r:
    Option<EngineEvent<P>>)
    ensures
        *final(state) == window_state_after(*old(state), event),
        r == window_event_output::<P>(window, event),
{
    match event {
        WindowEvent::Shown => Some(EngineEvent::WindowOccluded { window, occluded: false }),
        WindowEvent::Hidden => Some(EngineEvent::WindowOccluded { window, occluded: true }),
        WindowEvent::Exposed => Some(EngineEvent::WindowOccluded { window, occluded: false }),
        WindowEvent::Moved(x, y) => {
            state.position = Some(Position { x, y });
            Some(EngineEvent::WindowMoved { window, x, y })
        },
        WindowEvent::Resized(w, h) => {
            state.physical_width = w as u32;
            state.physical_height = h as u32;
            Some(EngineEvent::WindowResized { window, width: w, height: h })
        },
        WindowEvent::PixelSizeChanged(w, h) => {
            state.physical_width = w as u32;
            state.physical_height = h as u32;
            Some(EngineEvent::WindowResized { window, width: w, height: h })
        },
        WindowEvent::MouseEnter => Some(EngineEvent::CursorEntered { window }),
        WindowEvent::MouseLeave => Some(EngineEvent::CursorLeft { window }),
        WindowEvent::FocusGained => {
            state.focused = true;
            Some(EngineEvent::WindowFocused { window, focused: true })
        },
        WindowEvent::FocusLost => {
            state.focused = false;
            Some(EngineEvent::WindowFocused { window, focused: false })
        },
        WindowEvent::CloseRequested => Some(EngineEvent::WindowCloseRequested { window }),
        _ => None,
    }
}

/// Pushes engine-side window changes to the native windows. Native windows
/// take their settings once, at creation, so there is nothing to push.
pub fn update_windows() {
}

} // verus!
