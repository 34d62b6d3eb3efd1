use vstd::prelude::*;
use std::collections::{HashMap, HashSet};
use std::hash::Hash;
use vstd::std_specs::hash::obeys_key_model;
use vstd::std_specs::iter::IteratorSpec;

verus! {

broadcast use vstd::std_specs::hash::group_hash_axioms;

/// The keys (or buttons) of one device: those held down, and those that went
/// down or up in the current frame.
pub struct ButtonEventGroup<T: Hash + Eq + Copy> {
    keys: HashSet<T>,
    down_keys: HashSet<T>,
    up_keys: HashSet<T>,
}

impl<T: Hash + Eq + Copy> Default for ButtonEventGroup<T> {
    fn default() -> (r: Self)
        ensures
            r.held() == Set::<T>::empty(),
            r.went_down() == Set::<T>::empty(),
            r.went_up() == Set::<T>::empty(),
    {
        ButtonEventGroup { keys: HashSet::new(), down_keys: HashSet::new(), up_keys: HashSet::new() }
    }
}

impl<T: Hash + Eq + Copy> ButtonEventGroup<T> {
    /// The keys held down (a key released in this frame counts as held until `update`).
    pub closed spec fn held(&self) -> Set<T> {
        self.keys@
    }

    /// The keys that went down in this frame.
    pub closed spec fn went_down(&self) -> Set<T> {
        self.down_keys@
    }

    /// The keys that went up in this frame.
    pub closed spec fn went_up(&self) -> Set<T> {
        self.up_keys@
    }

    /// `code` went down.
    pub fn insert(&mut self, code: T)
        ensures
            obeys_key_model::<T>() ==> {
                &&& final(self).held() == old(self).held().insert(code)
                &&& final(self).went_down() == old(self).went_down().insert(code)
                &&& final(self).went_up() == old(self).went_up()
            },
    {
        self.keys.insert(code);
        self.down_keys.insert(code);
    }

    /// `code` went up.
    pub fn remove(&mut self, code: T)
        ensures
            obeys_key_model::<T>() ==> {
                &&& final(self).held() == old(self).held()
                &&& final(self).went_down() == old(self).went_down()
                &&& final(self).went_up() == old(self).went_up().insert(code)
            },
    {
        self.up_keys.insert(code);
    }

    /// Ends the frame: the keys that went up are no longer held, and nothing
    /// has gone down or up yet in the next frame.
    pub fn update(&mut self)
        requires
            obeys_key_model::<T>(),
        ensures
            final(self).held() == old(self).held().difference(old(self).went_up()),
            final(self).went_down() == Set::<T>::empty(),
            final(self).went_up() == Set::<T>::empty(),
    {
        let ghost old_keys = self.keys@;
        let ghost ups = self.up_keys@;
        let iter = self.up_keys.iter();
        let ghost all = iter.remaining();
        for k in it: iter
            invariant
                it.seq() == all,
                obeys_key_model::<T>(),
                all.unref().to_set() == ups,
                self.keys@ == old_keys.difference(
                    all.take(it.index() as int).unref().to_set(),
                ),
        {
            let ghost before = self.keys@;
            self.keys.remove(k);
            proof {
                {
                    let done = all.take(it.index() as int).unref();
                    let next = all.take(it.index() + 1).unref();
                    assert(next =~= done.push(*k));
                    assert(next.to_set() =~= done.to_set().insert(*k)) by {
                        done.lemma_push_to_set_commute(*k);
                    }
                    assert(self.keys@ =~= old_keys.difference(next.to_set()));
                }
            }
        }
        proof {
            {
                assert(all.take(all.len() as int) =~= all);
            }
        }
        self.down_keys.clear();
        self.up_keys.clear();
    }

    /// Whether `k` is held down.
    pub fn contains(&self, k: &T) -> (r: bool)
        ensures
            obeys_key_model::<T>() ==> r == self.held().contains(*k),
    {
        self.keys.contains(k)
    }

    /// Whether `k` went down in this frame.
    pub fn contains_down(&self, k: &T) -> (r: bool)
        ensures
            obeys_key_model::<T>() ==> r == self.went_down().contains(*k),
    {
        self.down_keys.contains(k)
    }

    /// Whether `k` went up in this frame.
    pub fn contains_up(&self, k: &T) -> (r: bool)
        ensures
            obeys_key_model::<T>() ==> r == self.went_up().contains(*k),
    {
        self.up_keys.contains(k)
    }
}

/// Whether a key or button went down or up.
#[derive(Debug, Clone, Copy, PartialEq, Eq, Structural)]
pub enum ElementState {
    Pressed,
    Released,
}

/// The size of a window's drawing area, in pixels.
#[derive(Debug, Clone, Copy, PartialEq, Eq, Structural, Default)]
pub struct PhysicalSize {
    pub width: u32,
    pub height: u32,
}

/// The events of one window that the registry follows; keys and mouse
/// buttons are given by their numeric codes.
#[derive(Debug, Clone, Copy, PartialEq, Eq, Structural)]
pub enum WindowEvent {
    /// A key went down or up; `virtual_keycode` is `None` for a key with no
    /// code, and `repeat` tells a key held down that the system repeats.
    KeyboardInput { virtual_keycode: Option<u32>, state: ElementState, repeat: bool },
    /// The drawing area got a new size.
    Resized(PhysicalSize),
    /// The user asked to close the window.
    CloseRequested,
    /// A mouse button went down or up.
    MouseInput { state: ElementState, button: u32 },
    /// The window is to be drawn again: a frame of the scene runs.
    RedrawRequested,
    /// Any other event, which the registry ignores.
    Other,
}

/// `after` is the registry `before` once the window event `event` was
/// recorded: a key that goes down while held is not recorded again, a key
/// that goes up stays held until the end of the frame, a resize sets the
/// size, a close request sets the flag, mouse buttons go down and up, and
/// any other event changes nothing.
pub open spec fn window_processed(before: WindowEventRegistry, after: WindowEventRegistry, event: WindowEvent) -> bool {
    match event {
        WindowEvent::KeyboardInput { virtual_keycode: Some(code), state: ElementState::Pressed, .. } => {
            &&& before.keys_held().contains(code) ==> after.same_keyboard(&before)
            &&& !before.keys_held().contains(code) ==> {
                &&& after.keys_held() == before.keys_held().insert(code)
                &&& after.keys_down() == before.keys_down().insert(code)
                &&& after.keys_up() == before.keys_up()
            }
            &&& after.same_mouse(&before)
            &&& after.size_spec() == before.size_spec()
            &&& after.close_requested_spec() == before.close_requested_spec()
        },
        WindowEvent::KeyboardInput { virtual_keycode: Some(code), state: ElementState::Released, .. } => {
            &&& after.keys_held() == before.keys_held()
            &&& after.keys_down() == before.keys_down()
            &&& after.keys_up() == before.keys_up().insert(code)
            &&& after.same_mouse(&before)
            &&& after.size_spec() == before.size_spec()
            &&& after.close_requested_spec() == before.close_requested_spec()
        },
        WindowEvent::Resized(size) => {
            &&& after.size_spec() == size
            &&& after.same_keyboard(&before)
            &&& after.same_mouse(&before)
            &&& after.close_requested_spec() == before.close_requested_spec()
        },
        WindowEvent::CloseRequested => {
            &&& after.close_requested_spec()
            &&& after.same_keyboard(&before)
            &&& after.same_mouse(&before)
            &&& after.size_spec() == before.size_spec()
        },
        WindowEvent::MouseInput { state: ElementState::Pressed, button } => {
            &&& after.buttons_held() == before.buttons_held().insert(button)
            &&& after.buttons_down() == before.buttons_down().insert(button)
            &&& after.buttons_up() == before.buttons_up()
            &&& after.same_keyboard(&before)
            &&& after.size_spec() == before.size_spec()
            &&& after.close_requested_spec() == before.close_requested_spec()
        },
        WindowEvent::MouseInput { state: ElementState::Released, button } => {
            &&& after.buttons_held() == before.buttons_held()
            &&& after.buttons_down() == before.buttons_down()
            &&& after.buttons_up() == before.buttons_up().insert(button)
            &&& after.same_keyboard(&before)
            &&& after.size_spec() == before.size_spec()
            &&& after.close_requested_spec() == before.close_requested_spec()
        },
        _ => {
            &&& after.same_keyboard(&before)
            &&& after.same_mouse(&before)
            &&& after.size_spec() == before.size_spec()
            &&& after.close_requested_spec() == before.close_requested_spec()
        },
    }
}

/// `w` records nothing: no key or button, size zero, no close request.
pub open spec fn fresh_window(w: WindowEventRegistry) -> bool {
    &&& w.keys_held() == Set::<u32>::empty()
    &&& w.keys_down() == Set::<u32>::empty()
    &&& w.keys_up() == Set::<u32>::empty()
    &&& w.buttons_held() == Set::<u32>::empty()
    &&& w.buttons_down() == Set::<u32>::empty()
    &&& w.buttons_up() == Set::<u32>::empty()
    &&& w.size_spec() == (PhysicalSize { width: 0, height: 0 })
    &&& !w.close_requested_spec()
}

/// Law: once closing was asked for, the window should close, whatever was
/// asked before; no other event takes the request back.
pub proof fn lemma_close_request_sticks(before: WindowEventRegistry, after: WindowEventRegistry, event: WindowEvent)
    requires
        window_processed(before, after, event),
    ensures
        event == WindowEvent::CloseRequested ==> after.close_requested_spec(),
        before.close_requested_spec() ==> after.close_requested_spec(),
{
}

/// What happened to one window: its keys and mouse buttons, its size and
/// whether closing it was asked for.
pub struct WindowEventRegistry {
    keybaord: ButtonEventGroup<u32>,
    mouse: ButtonEventGroup<u32>,
    size: PhysicalSize,
    close_requested: bool,
}

impl Default for WindowEventRegistry {
    fn default() -> (r: Self)
        ensures
            r.keys_held() == Set::<u32>::empty(),
            r.keys_down() == Set::<u32>::empty(),
            r.keys_up() == Set::<u32>::empty(),
            r.buttons_held() == Set::<u32>::empty(),
            r.buttons_down() == Set::<u32>::empty(),
            r.buttons_up() == Set::<u32>::empty(),
            r.size_spec() == (PhysicalSize { width: 0, height: 0 }),
            !r.close_requested_spec(),
    {
        WindowEventRegistry {
            keybaord: ButtonEventGroup::default(),
            mouse: ButtonEventGroup::default(),
            size: PhysicalSize { width: 0, height: 0 },
            close_requested: false,
        }
    }
}

impl WindowEventRegistry {
    /// The keys held down.
    pub closed spec fn keys_held(&self) -> Set<u32> {
        self.keybaord.held()
    }

    /// The keys that went down in this frame.
    pub closed spec fn keys_down(&self) -> Set<u32> {
        self.keybaord.went_down()
    }

    /// The keys that went up in this frame.
    pub closed spec fn keys_up(&self) -> Set<u32> {
        self.keybaord.went_up()
    }

    /// The mouse buttons held down.
    pub closed spec fn buttons_held(&self) -> Set<u32> {
        self.mouse.held()
    }

    /// The mouse buttons that went down in this frame.
    pub closed spec fn buttons_down(&self) -> Set<u32> {
        self.mouse.went_down()
    }

    /// The mouse buttons that went up in this frame.
    pub closed spec fn buttons_up(&self) -> Set<u32> {
        self.mouse.went_up()
    }

    /// The last size the window was given.
    pub closed spec fn size_spec(&self) -> PhysicalSize {
        self.size
    }

    /// Whether closing the window was asked for.
    pub closed spec fn close_requested_spec(&self) -> bool {
        self.close_requested
    }

    /// The mouse side of the registry is unchanged from `other`.
    pub open spec fn same_mouse(&self, other: &Self) -> bool {
        &&& self.buttons_held() == other.buttons_held()
        &&& self.buttons_down() == other.buttons_down()
        &&& self.buttons_up() == other.buttons_up()
    }

    /// The keyboard side of the registry is unchanged from `other`.
    pub open spec fn same_keyboard(&self, other: &Self) -> bool {
        &&& self.keys_held() == other.keys_held()
        &&& self.keys_down() == other.keys_down()
        &&& self.keys_up() == other.keys_up()
    }

    /// Records one event of the window. A key that goes down while held is
    /// not recorded again; a key that goes up stays held until `update`.
    pub fn process(&mut self, event: &WindowEvent)
        ensures
            window_processed(*old(self), *final(self), *event),
            *event == WindowEvent::CloseRequested ==> final(self).close_requested_spec(),
            *event != WindowEvent::CloseRequested ==> final(self).close_requested_spec()
                == old(self).close_requested_spec(),
            forall|c: u32, rep: bool|
                *event == (WindowEvent::KeyboardInput {
                    virtual_keycode: Some(c),
                    state: ElementState::Released,
                    repeat: rep,
                }) ==> final(self).keys_up().contains(c) && final(self).keys_held() == old(self).keys_held(),
    {
        match event {
            WindowEvent::KeyboardInput { virtual_keycode, state, .. } => {
                if let Some(code) = virtual_keycode {
                    match state {
                        ElementState::Pressed => {
                            if !self.keybaord.contains(code) {
                                self.keybaord.insert(*code);
                            }
                        },
                        ElementState::Released => self.keybaord.remove(*code),
                    }
                }
            },
            WindowEvent::Resized(size) => {
                self.size = *size;
            },
            WindowEvent::CloseRequested => {
                self.close_requested = true;
            },
            WindowEvent::MouseInput { state, button } => match state {
                ElementState::Pressed => self.mouse.insert(*button),
                ElementState::Released => self.mouse.remove(*button),
            },
            WindowEvent::RedrawRequested | WindowEvent::Other => {},
        }
    }

    /// Ends the frame for keys and mouse buttons: what went up is no longer
    /// held, and nothing has gone down or up in the next frame yet.
    pub fn update(&mut self)
        ensures
            final(self).keys_held() == old(self).keys_held().difference(old(self).keys_up()),
            final(self).keys_down() == Set::<u32>::empty(),
            final(self).keys_up() == Set::<u32>::empty(),
            final(self).buttons_held() == old(self).buttons_held().difference(old(self).buttons_up()),
            final(self).buttons_down() == Set::<u32>::empty(),
            final(self).buttons_up() == Set::<u32>::empty(),
            final(self).size_spec() == old(self).size_spec(),
            final(self).close_requested_spec() == old(self).close_requested_spec(),
    {
        self.keybaord.update();
        self.mouse.update();
    }

    /// Whether the key `k` is held down.
    pub fn is_pressed(&self, k: u32) -> (r: bool)
        ensures
            r == self.keys_held().contains(k),
    {
        self.keybaord.contains(&k)
    }

    /// Whether the key `k` went down in this frame.
    pub fn is_pressed_down(&self, k: u32) -> (r: bool)
        ensures
            r == self.keys_down().contains(k),
    {
        self.keybaord.contains_down(&k)
    }

    /// Whether the key `k` went up in this frame.
    pub fn is_released(&self, k: u32) -> (r: bool)
        ensures
            r == self.keys_up().contains(k),
    {
        self.keybaord.contains_up(&k)
    }

    /// The last size the window was given.
    pub fn is_resized(&self) -> (r: &PhysicalSize)
        ensures
            *r == self.size_spec(),
    {
        &self.size
    }

    /// Whether closing the window was asked for.
    pub fn should_close(&self) -> (r: bool)
        ensures
            r == self.close_requested_spec(),
    {
        self.close_requested
    }

    /// The last size the window was given.
    pub fn size(&self) -> (r: PhysicalSize)
        ensures
            r == self.size_spec(),
    {
        self.size
    }
}

/// Law: a key that goes down and comes up again is held from the press until
/// the end of the frame in which it came up, and not after.
pub proof fn lemma_key_press_release_update(
    r0: WindowEventRegistry,
    r1: WindowEventRegistry,
    r2: WindowEventRegistry,
    r3: WindowEventRegistry,
    code: u32,
)
    requires
        // r1 is r0 after the key went down
        !r0.keys_held().contains(code) ==> r1.keys_held() == r0.keys_held().insert(code),
        r0.keys_held().contains(code) ==> r1.keys_held() == r0.keys_held(),
        // r2 is r1 after the key went up
        r2.keys_held() == r1.keys_held(),
        r2.keys_up() == r1.keys_up().insert(code),
        // r3 is r2 after the end of the frame
        r3.keys_held() == r2.keys_held().difference(r2.keys_up()),
    ensures
        r1.keys_held().contains(code),
        r2.keys_held().contains(code),
        !r3.keys_held().contains(code),
{
}

/// Why the event loop started a new round.
#[derive(Debug, Clone, Copy, PartialEq, Eq, Structural)]
pub enum StartCause {
    Init,
    ResumeTimeReached,
    Other,
}

/// The events of the event loop that the registry follows.
#[derive(Debug, Clone, Copy)]
pub enum Event {
    /// The event loop starts a new round.
    NewEvents(StartCause),
    /// An event of the window `window_id`.
    WindowEvent { window_id: u64, event: WindowEvent },
    /// A system reports when its frame started.
    UpdateDeltaTime,
    /// Any other event (device events carry real numbers and are followed
    /// by the application layer).
    Other,
}

impl Event {
    /// Whether this event opens a new round of the event loop that asks for
    /// an update (the first round, or the end of a wait).
    pub fn starts_round(&self) -> (r: bool)
        ensures
            r <==> (*self == Event::NewEvents(StartCause::Init) || *self == Event::NewEvents(
                StartCause::ResumeTimeReached,
            )),
    {
        match self {
            Event::NewEvents(StartCause::Init) | Event::NewEvents(StartCause::ResumeTimeReached) => true,
            _ => false,
        }
    }
}

/// What the caller does with the start time of the frame after an event.
#[derive(Debug, Clone, Copy, PartialEq, Eq, Structural)]
pub enum FrameStart {
    /// Leave it.
    Keep,
    /// A new frame starts now: take the current time, and zero the pointer
    /// and wheel motion.
    Now,
    /// Take the start time that the event reports.
    FromEvent,
}

/// `b` is the window `a` at the end of its frame.
pub open spec fn window_updated(a: WindowEventRegistry, b: WindowEventRegistry) -> bool {
    &&& b.keys_held() == a.keys_held().difference(a.keys_up())
    &&& b.keys_down() == Set::<u32>::empty()
    &&& b.keys_up() == Set::<u32>::empty()
    &&& b.buttons_held() == a.buttons_held().difference(a.buttons_up())
    &&& b.buttons_down() == Set::<u32>::empty()
    &&& b.buttons_up() == Set::<u32>::empty()
    &&& b.size_spec() == a.size_spec()
    &&& b.close_requested_spec() == a.close_requested_spec()
}

/// What happened to each window, by window number, and the bookkeeping of
/// the frame start.
pub struct EventRegistry {
    windows: HashMap<u64, WindowEventRegistry>,
    empty: WindowEventRegistry,
    delta_time_updatable: bool,
    starting_frame: bool,
}

impl Default for EventRegistry {
    fn default() -> (r: Self)
        ensures
            r.windows() == Map::<u64, WindowEventRegistry>::empty(),
            r.delta_time_updatable_spec(),
            r.starting_frame_spec(),
            r.empty_window_is_empty(),
    {
        Self::new()
    }
}

impl EventRegistry {
    /// The windows that had events, by number.
    pub closed spec fn windows(&self) -> Map<u64, WindowEventRegistry> {
        self.windows@
    }

    /// Whether the frame start may still be taken from an event in this frame.
    pub closed spec fn delta_time_updatable_spec(&self) -> bool {
        self.delta_time_updatable
    }

    /// Whether this registry starts frames itself on a new round of events.
    pub closed spec fn starting_frame_spec(&self) -> bool {
        self.starting_frame
    }

    /// The registry of a window with no event yet.
    pub closed spec fn empty_window(&self) -> WindowEventRegistry {
        self.empty
    }

    /// The empty window holds nothing.
    pub open spec fn empty_window_is_empty(&self) -> bool {
        &&& self.empty_window().keys_held() == Set::<u32>::empty()
        &&& self.empty_window().keys_down() == Set::<u32>::empty()
        &&& self.empty_window().keys_up() == Set::<u32>::empty()
        &&& self.empty_window().buttons_held() == Set::<u32>::empty()
        &&& self.empty_window().buttons_down() == Set::<u32>::empty()
        &&& self.empty_window().buttons_up() == Set::<u32>::empty()
        &&& self.empty_window().size_spec() == (PhysicalSize { width: 0, height: 0 })
        &&& !self.empty_window().close_requested_spec()
    }

    /// No window yet; frames start on new rounds of events.
    pub fn new() -> (r: Self)
        ensures
            r.windows() == Map::<u64, WindowEventRegistry>::empty(),
            r.delta_time_updatable_spec(),
            r.starting_frame_spec(),
            r.empty_window_is_empty(),
    {
        EventRegistry {
            windows: HashMap::new(),
            empty: WindowEventRegistry::default(),
            delta_time_updatable: true,
            starting_frame: true,
        }
    }

    /// A registry whose frames are started by its owner rather than by new
    /// rounds of events.
    pub fn new_owner_started() -> (r: Self)
        ensures
            r.windows() == Map::<u64, WindowEventRegistry>::empty(),
            r.delta_time_updatable_spec(),
            !r.starting_frame_spec(),
            r.empty_window_is_empty(),
    {
        let mut r = Self::new();
        r.starting_frame = false;
        r
    }

    /// Ends the frame of every window, when this registry starts frames; says
    /// whether it did.
    pub fn update(&mut self) -> (r: bool)
        ensures
            r == old(self).starting_frame_spec(),
            !r ==> final(self).windows() == old(self).windows()
                && final(self).delta_time_updatable_spec() == old(self).delta_time_updatable_spec(),
            r ==> final(self).windows().dom() == old(self).windows().dom() && (forall|id: u64|
                #[trigger] old(self).windows().contains_key(id) ==> window_updated(
                    old(self).windows()[id],
                    final(self).windows()[id],
                )) && final(self).delta_time_updatable_spec(),
            final(self).starting_frame_spec() == old(self).starting_frame_spec(),
            final(self).empty_window() == old(self).empty_window(),
    {
        if !self.starting_frame {
            return false;
        }
        let ghost old_windows = self.windows@;
        let mut ids: Vec<u64> = Vec::new();
        let keys = self.windows.keys();
        let ghost all = keys.remaining();
        for k in it: keys
            invariant
                it.seq() == all,
                ids@ == all.take(it.index() as int).unref(),
                self.starting_frame == old(self).starting_frame,
                self.empty == old(self).empty,
                self.windows@ == old_windows,
        {
            ids.push(*k);
            proof {
                assert(all.take(it.index() + 1).unref() =~= all.take(it.index() as int).unref().push(*k));
            }
        }
        proof {
            assert(all.take(all.len() as int) =~= all);
            assert(ids@.to_set() == old_windows.dom());
        }
        for i in 0..ids.len()
            invariant
                self.starting_frame == old(self).starting_frame,
                self.empty == old(self).empty,
                ids@.to_set() == old_windows.dom(),
                ids@.no_duplicates(),
                self.windows@.dom() == old_windows.dom(),
                forall|j: int| 0 <= j < i ==> window_updated(old_windows[ids@[j]], #[trigger] self.windows@[ids@[j]]),
                forall|j: int| i <= j < ids@.len() ==> #[trigger] self.windows@[ids@[j]] == old_windows[ids@[j]],
        {
            let id = ids[i];
            proof {
                assert(ids@.to_set().contains(id));
            }
            let w = self.windows.remove(&id);
            let mut w = w.unwrap();
            w.update();
            self.windows.insert(id, w);
            proof {
                assert(self.windows@.dom() =~= old_windows.dom());
                assert forall|j: int| 0 <= j < i + 1 implies window_updated(old_windows[ids@[j]], #[trigger] self.windows@[ids@[j]]) by {
                    if j < i {
                        assert(ids@[j] != id);
                    }
                }
                assert forall|j: int| i + 1 <= j < ids@.len() implies #[trigger] self.windows@[ids@[j]] == old_windows[ids@[j]] by {
                    assert(ids@[j] != id);
                }
            }
        }
        proof {
            assert forall|id: u64| #[trigger] old_windows.contains_key(id) implies window_updated(
                old_windows[id],
                self.windows@[id],
            ) by {
                assert(ids@.to_set().contains(id));
                let j = choose|j: int| 0 <= j < ids@.len() && ids@[j] == id;
                assert(window_updated(old_windows[ids@[j]], self.windows@[ids@[j]]));
            }
        }
        self.delta_time_updatable = true;
        true
    }

    /// Records an event of the window `id`, starting a registry for it on its
    /// first event.
    pub fn process_window_event(&mut self, id: u64, event: &WindowEvent)
        ensures
            final(self).windows().dom() == old(self).windows().dom().insert(id),
            old(self).windows().contains_key(id) ==> window_processed(
                old(self).windows()[id],
                final(self).windows()[id],
                *event,
            ),
            !old(self).windows().contains_key(id) ==> exists|w: WindowEventRegistry|
                #[trigger] fresh_window(w) && window_processed(w, final(self).windows()[id], *event),
            forall|other: u64| other != id && #[trigger] old(self).windows().contains_key(other)
                ==> final(self).windows()[other] == old(self).windows()[other],
            final(self).delta_time_updatable_spec() == old(self).delta_time_updatable_spec(),
            final(self).starting_frame_spec() == old(self).starting_frame_spec(),
            final(self).empty_window() == old(self).empty_window(),
    {
        let mut w = match self.windows.remove(&id) {
            Some(w) => w,
            None => WindowEventRegistry::default(),
        };
        let ghost before = w;
        proof {
            if !old(self).windows@.contains_key(id) {
                assert(fresh_window(before));
            }
        }
        w.process(event);
        self.windows.insert(id, w);
        proof {
            assert(self.windows@.dom() =~= old(self).windows@.dom().insert(id));
            assert(self.windows@[id] == w);
        }
    }

    /// Records one event of the event loop, and says what becomes of the
    /// start time of the frame.
    pub fn process(&mut self, event: &Event) -> (r: FrameStart)
        ensures
            match *event {
                Event::NewEvents(StartCause::Init) | Event::NewEvents(StartCause::ResumeTimeReached) => {
                    &&& r == (if old(self).starting_frame_spec() { FrameStart::Now } else { FrameStart::Keep })
                    &&& old(self).starting_frame_spec() ==> {
                        &&& final(self).windows().dom() == old(self).windows().dom()
                        &&& forall|id: u64| #[trigger] old(self).windows().contains_key(id) ==> window_updated(
                            old(self).windows()[id],
                            final(self).windows()[id],
                        )
                        &&& final(self).delta_time_updatable_spec()
                    }
                    &&& !old(self).starting_frame_spec() ==> {
                        &&& final(self).windows() == old(self).windows()
                        &&& final(self).delta_time_updatable_spec() == old(self).delta_time_updatable_spec()
                    }
                },
                Event::WindowEvent { window_id, event: window_event } => {
                    &&& r == FrameStart::Keep
                    &&& final(self).windows().dom() == old(self).windows().dom().insert(window_id)
                    &&& forall|other: u64| other != window_id && #[trigger] old(self).windows().contains_key(other)
                        ==> final(self).windows()[other] == old(self).windows()[other]
                    &&& old(self).windows().contains_key(window_id) ==> window_processed(
                        old(self).windows()[window_id],
                        final(self).windows()[window_id],
                        window_event,
                    )
                    &&& !old(self).windows().contains_key(window_id) ==> exists|w: WindowEventRegistry|
                        #[trigger] fresh_window(w) && window_processed(w, final(self).windows()[window_id], window_event)
                    &&& final(self).delta_time_updatable_spec() == old(self).delta_time_updatable_spec()
                },
                Event::UpdateDeltaTime => {
                    &&& r == (if old(self).delta_time_updatable_spec() { FrameStart::FromEvent } else { FrameStart::Keep })
                    &&& !final(self).delta_time_updatable_spec()
                    &&& final(self).windows() == old(self).windows()
                },
                _ => {
                    &&& r == FrameStart::Keep
                    &&& final(self).windows() == old(self).windows()
                    &&& final(self).delta_time_updatable_spec() == old(self).delta_time_updatable_spec()
                },
            },
            final(self).starting_frame_spec() == old(self).starting_frame_spec(),
            final(self).empty_window() == old(self).empty_window(),
    {
        match event {
            Event::NewEvents(StartCause::Init) | Event::NewEvents(StartCause::ResumeTimeReached) => {
                if self.update() {
                    FrameStart::Now
                } else {
                    FrameStart::Keep
                }
            },
            Event::WindowEvent { window_id, event } => {
                self.process_window_event(*window_id, event);
                FrameStart::Keep
            },
            Event::UpdateDeltaTime => {
                if self.delta_time_updatable {
                    self.delta_time_updatable = false;
                    FrameStart::FromEvent
                } else {
                    FrameStart::Keep
                }
            },
            _ => FrameStart::Keep,
        }
    }

    /// What happened to window `id` (an empty registry if nothing did).
    pub fn get_window_events(&self, id: u64) -> (r: &WindowEventRegistry)
        ensures
            self.windows().contains_key(id) ==> *r == self.windows()[id],
            !self.windows().contains_key(id) ==> *r == self.empty_window(),
    {
        match self.windows.get(&id) {
            Some(w) => w,
            None => &self.empty,
        }
    }
}

} // verus!
