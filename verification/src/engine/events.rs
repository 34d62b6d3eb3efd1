use vstd::prelude::*;
use std::collections::HashSet;
use std::hash::Hash;
use vstd::std_specs::hash::obeys_key_model;

use crate::engine::events::event_registry::{ElementState, PhysicalSize, WindowEvent};

pub mod event_registry;

verus! {

broadcast use vstd::std_specs::hash::group_hash_axioms;

/// A type that can travel as a custom engine event.
pub trait MatrixEventable: Clone + Send + Sync + core::fmt::Debug + 'static {}

impl<T: Clone + Send + Sync + core::fmt::Debug + 'static> MatrixEventable for T {}

/// Tracks the inputs (keys or buttons) that are held down, and those pressed
/// or released since the last `reset`.
#[derive(Debug)]
pub struct InputManager<T: Eq + Hash + Copy> {
    currently_pressed: HashSet<T>,
    just_pressed: HashSet<T>,
    just_released: HashSet<T>,
}

impl<T: Eq + Hash + Copy> Default for InputManager<T> {
    fn default() -> (r: Self)
        ensures
            r.pressed() == Set::<T>::empty(),
            r.pressed_this_frame() == Set::<T>::empty(),
            r.released_this_frame() == Set::<T>::empty(),
    {
        Self::new()
    }
}

impl<T: Eq + Hash + Copy> InputManager<T> {
    /// The inputs held down.
    pub closed spec fn pressed(&self) -> Set<T> {
        self.currently_pressed@
    }

    /// The inputs pressed since the last `reset`.
    pub closed spec fn pressed_this_frame(&self) -> Set<T> {
        self.just_pressed@
    }

    /// The inputs released since the last `reset`.
    pub closed spec fn released_this_frame(&self) -> Set<T> {
        self.just_released@
    }

    /// Nothing is held, pressed or released.
    pub fn new() -> (r: Self)
        ensures
            r.pressed() == Set::<T>::empty(),
            r.pressed_this_frame() == Set::<T>::empty(),
            r.released_this_frame() == Set::<T>::empty(),
    {
        InputManager {
            currently_pressed: HashSet::new(),
            just_pressed: HashSet::new(),
            just_released: HashSet::new(),
        }
    }

    /// `input` went down.
    pub fn on_press(&mut self, input: T)
        ensures
            obeys_key_model::<T>() ==> {
                &&& final(self).pressed() == old(self).pressed().insert(input)
                &&& final(self).pressed_this_frame() == old(self).pressed_this_frame().insert(input)
                &&& final(self).released_this_frame() == old(self).released_this_frame()
            },
    {
        self.just_pressed.insert(input);
        self.currently_pressed.insert(input);
    }

    /// `input` went up.
    pub fn on_release(&mut self, input: T)
        ensures
            obeys_key_model::<T>() ==> {
                &&& final(self).pressed() == old(self).pressed().remove(input)
                &&& final(self).pressed_this_frame() == old(self).pressed_this_frame()
                &&& final(self).released_this_frame() == old(self).released_this_frame().insert(input)
            },
    {
        self.just_released.insert(input);
        self.currently_pressed.remove(&input);
    }

    /// Whether `input` is held down.
    pub fn is_pressed(&self, input: T) -> (r: bool)
        ensures
            obeys_key_model::<T>() ==> r == self.pressed().contains(input),
    {
        self.currently_pressed.contains(&input)
    }

    /// Whether `input` was pressed since the last `reset`.
    pub fn is_just_pressed(&self, input: T) -> (r: bool)
        ensures
            obeys_key_model::<T>() ==> r == self.pressed_this_frame().contains(input),
    {
        self.just_pressed.contains(&input)
    }

    /// Whether `input` was released since the last `reset`.
    pub fn is_just_released(&self, input: T) -> (r: bool)
        ensures
            obeys_key_model::<T>() ==> r == self.released_this_frame().contains(input),
    {
        self.just_released.contains(&input)
    }

    /// Starts a new frame: forgets what was pressed or released, keeps what is held.
    pub fn reset(&mut self)
        ensures
            final(self).pressed() == old(self).pressed(),
            final(self).pressed_this_frame() == Set::<T>::empty(),
            final(self).released_this_frame() == Set::<T>::empty(),
    {
        self.just_pressed.clear();
        self.just_released.clear();
    }
}

/// The input state of a frame: keys and mouse buttons, whether closing was
/// asked for, the new size of the window if it changed, and the queue of the
/// engine's own events of type `E`, in the order they came. (The pointer
/// position and motion, the wheel and the frame time are real numbers and are
/// not part of this state.)
#[derive(Debug)]
pub struct Events<E> {
    keyboard_input: InputManager<u32>,
    mouse_input: InputManager<u32>,
    close_requested: bool,
    matrix_events: Vec<E>,
    new_inner_size: Option<PhysicalSize>,
}

impl<E> Default for Events<E> {
    fn default() -> (r: Self)
        ensures
            r.keyboard_spec().pressed() == Set::<u32>::empty(),
            r.keyboard_spec().pressed_this_frame() == Set::<u32>::empty(),
            r.keyboard_spec().released_this_frame() == Set::<u32>::empty(),
            r.mouse_spec().pressed() == Set::<u32>::empty(),
            r.mouse_spec().pressed_this_frame() == Set::<u32>::empty(),
            r.mouse_spec().released_this_frame() == Set::<u32>::empty(),
            !r.close_requested_spec(),
            r.new_inner_size_spec() is None,
            r.matrix_events_spec() == Seq::<E>::empty(),
    {
        Self::new()
    }
}

impl<E> Events<E> {
    /// The engine's events received so far, oldest first.
    pub closed spec fn matrix_events_spec(&self) -> Seq<E> {
        self.matrix_events@
    }


    /// The keyboard.
    pub closed spec fn keyboard_spec(&self) -> InputManager<u32> {
        self.keyboard_input
    }

    /// The mouse buttons.
    pub closed spec fn mouse_spec(&self) -> InputManager<u32> {
        self.mouse_input
    }

    /// Whether closing the window was asked for in this frame.
    pub closed spec fn close_requested_spec(&self) -> bool {
        self.close_requested
    }

    /// The size the window was given in this frame, if it was resized.
    pub closed spec fn new_inner_size_spec(&self) -> Option<PhysicalSize> {
        self.new_inner_size
    }

    /// Nothing pressed, nothing asked.
    pub fn new() -> (r: Self)
        ensures
            r.keyboard_spec().pressed() == Set::<u32>::empty(),
            r.keyboard_spec().pressed_this_frame() == Set::<u32>::empty(),
            r.keyboard_spec().released_this_frame() == Set::<u32>::empty(),
            r.mouse_spec().pressed() == Set::<u32>::empty(),
            r.mouse_spec().pressed_this_frame() == Set::<u32>::empty(),
            r.mouse_spec().released_this_frame() == Set::<u32>::empty(),
            !r.close_requested_spec(),
            r.new_inner_size_spec() is None,
            r.matrix_events_spec() == Seq::<E>::empty(),
    {
        Events {
            keyboard_input: InputManager::new(),
            mouse_input: InputManager::new(),
            close_requested: false,
            matrix_events: Vec::new(),
            new_inner_size: None,
        }
    }

    /// Records one window event. A key the system repeats while it is held
    /// is not pressed again; a key with no code is ignored.
    pub fn handle_window_event(&mut self, event: &WindowEvent)
        ensures
            events_handled(*old(self), *final(self), *event),
            forall|c: u32, rep: bool|
                *event == (WindowEvent::KeyboardInput {
                    virtual_keycode: Some(c),
                    state: ElementState::Released,
                    repeat: rep,
                }) ==> !final(self).keyboard_spec().pressed().contains(c)
                    && final(self).keyboard_spec().pressed() == old(self).keyboard_spec().pressed().remove(c)
                    && final(self).keyboard_spec().released_this_frame().contains(c),
            forall|c: u32|
                *event == (WindowEvent::KeyboardInput {
                    virtual_keycode: Some(c),
                    state: ElementState::Pressed,
                    repeat: false,
                }) ==> final(self).keyboard_spec().pressed().contains(c)
                    && final(self).keyboard_spec().pressed_this_frame().contains(c),
            *event == WindowEvent::CloseRequested ==> final(self).close_requested_spec(),
    {
        match event {
            WindowEvent::KeyboardInput { virtual_keycode, state, repeat } => {
                if let Some(keycode) = virtual_keycode {
                    match state {
                        ElementState::Pressed => {
                            if !*repeat {
                                self.keyboard_input.on_press(*keycode);
                            }
                        },
                        ElementState::Released => self.keyboard_input.on_release(*keycode),
                    }
                }
            },
            WindowEvent::MouseInput { state, button } => match state {
                ElementState::Pressed => self.mouse_input.on_press(*button),
                ElementState::Released => self.mouse_input.on_release(*button),
            },
            WindowEvent::CloseRequested => {
                self.close_requested = true;
            },
            WindowEvent::Resized(size) => {
                self.new_inner_size = Some(*size);
            },
            _ => {},
        }
    }

    /// Starts a new frame: what was pressed or released, the close request
    /// and the new size are forgotten; what is held stays held.
    pub fn reset(&mut self)
        ensures
            events_reset(*old(self), *final(self)),
            final(self).keyboard_spec().pressed_this_frame().len() == 0,
            final(self).keyboard_spec().released_this_frame().len() == 0,
            final(self).mouse_spec().pressed_this_frame().len() == 0,
            final(self).mouse_spec().released_this_frame().len() == 0,
            forall|c: u32| #[trigger] final(self).keyboard_spec().pressed().contains(c)
                == old(self).keyboard_spec().pressed().contains(c),
    {
        self.keyboard_input.reset();
        self.mouse_input.reset();
        self.close_requested = false;
        self.new_inner_size = None;
    }

    /// Queues one of the engine's own events, last.
    pub fn handle_matrix_event(&mut self, event: E)
        ensures
            final(self).matrix_events_spec() == old(self).matrix_events_spec().push(event),
            final(self).keyboard_spec() == old(self).keyboard_spec(),
            final(self).mouse_spec() == old(self).mouse_spec(),
            final(self).close_requested_spec() == old(self).close_requested_spec(),
            final(self).new_inner_size_spec() == old(self).new_inner_size_spec(),
    {
        self.matrix_events.push(event);
    }

    /// The engine's events received so far, oldest first.
    pub fn matrix_events(&self) -> (r: &[E])
        ensures
            r@ == self.matrix_events_spec(),
    {
        self.matrix_events.as_slice()
    }

    /// The size the window was given in this frame, if it was resized.
    pub fn new_inner_size(&self) -> (r: Option<&PhysicalSize>)
        ensures
            r == match self.new_inner_size_spec() {
                Some(s) => Some(&s),
                None => None::<&PhysicalSize>,
            },
    {
        self.new_inner_size.as_ref()
    }

    /// Whether closing the window was asked for in this frame.
    pub fn close_requested(&self) -> (r: bool)
        ensures
            r == self.close_requested_spec(),
    {
        self.close_requested
    }

    /// The keyboard.
    pub fn keyboard(&self) -> (r: &InputManager<u32>)
        ensures
            *r == self.keyboard_spec(),
    {
        &self.keyboard_input
    }

    /// The mouse buttons.
    pub fn mouse(&self) -> (r: &InputManager<u32>)
        ensures
            *r == self.mouse_spec(),
    {
        &self.mouse_input
    }
}

/// `after` is the input state `before` once the window event `event` was
/// recorded: a key the system repeats while held is not pressed again, a key
/// with no code is ignored, and the queue of engine events is unchanged.
pub open spec fn events_handled<E>(before: Events<E>, after: Events<E>, event: WindowEvent) -> bool {
    &&& match event {
        WindowEvent::KeyboardInput { virtual_keycode: Some(code), state: ElementState::Pressed, repeat: false } => {
            &&& after.keyboard_spec().pressed() == before.keyboard_spec().pressed().insert(code)
            &&& after.keyboard_spec().pressed_this_frame() == before.keyboard_spec().pressed_this_frame().insert(code)
            &&& after.keyboard_spec().released_this_frame() == before.keyboard_spec().released_this_frame()
            &&& after.mouse_spec() == before.mouse_spec()
            &&& after.close_requested_spec() == before.close_requested_spec()
            &&& after.new_inner_size_spec() == before.new_inner_size_spec()
        },
        WindowEvent::KeyboardInput { virtual_keycode: Some(code), state: ElementState::Released, .. } => {
            &&& after.keyboard_spec().pressed() == before.keyboard_spec().pressed().remove(code)
            &&& after.keyboard_spec().pressed_this_frame() == before.keyboard_spec().pressed_this_frame()
            &&& after.keyboard_spec().released_this_frame() == before.keyboard_spec().released_this_frame().insert(code)
            &&& after.mouse_spec() == before.mouse_spec()
            &&& after.close_requested_spec() == before.close_requested_spec()
            &&& after.new_inner_size_spec() == before.new_inner_size_spec()
        },
        WindowEvent::MouseInput { state: ElementState::Pressed, button } => {
            &&& after.mouse_spec().pressed() == before.mouse_spec().pressed().insert(button)
            &&& after.mouse_spec().pressed_this_frame() == before.mouse_spec().pressed_this_frame().insert(button)
            &&& after.mouse_spec().released_this_frame() == before.mouse_spec().released_this_frame()
            &&& after.keyboard_spec() == before.keyboard_spec()
            &&& after.close_requested_spec() == before.close_requested_spec()
            &&& after.new_inner_size_spec() == before.new_inner_size_spec()
        },
        WindowEvent::MouseInput { state: ElementState::Released, button } => {
            &&& after.mouse_spec().pressed() == before.mouse_spec().pressed().remove(button)
            &&& after.mouse_spec().pressed_this_frame() == before.mouse_spec().pressed_this_frame()
            &&& after.mouse_spec().released_this_frame() == before.mouse_spec().released_this_frame().insert(button)
            &&& after.keyboard_spec() == before.keyboard_spec()
            &&& after.close_requested_spec() == before.close_requested_spec()
            &&& after.new_inner_size_spec() == before.new_inner_size_spec()
        },
        WindowEvent::CloseRequested => {
            &&& after.close_requested_spec()
            &&& after.keyboard_spec() == before.keyboard_spec()
            &&& after.mouse_spec() == before.mouse_spec()
            &&& after.new_inner_size_spec() == before.new_inner_size_spec()
        },
        WindowEvent::Resized(size) => {
            &&& after.new_inner_size_spec() == Some(size)
            &&& after.keyboard_spec() == before.keyboard_spec()
            &&& after.mouse_spec() == before.mouse_spec()
            &&& after.close_requested_spec() == before.close_requested_spec()
        },
        _ => {
            &&& after.keyboard_spec() == before.keyboard_spec()
            &&& after.mouse_spec() == before.mouse_spec()
            &&& after.close_requested_spec() == before.close_requested_spec()
            &&& after.new_inner_size_spec() == before.new_inner_size_spec()
        },
    }
    &&& after.matrix_events_spec() == before.matrix_events_spec()
}

/// `after` is the input state `before` at the start of a new frame: what
/// was pressed or released, the close request and the new size are
/// forgotten; what is held stays held, and so does the queue of engine events.
pub open spec fn events_reset<E>(before: Events<E>, after: Events<E>) -> bool {
    &&& after.keyboard_spec().pressed() == before.keyboard_spec().pressed()
    &&& after.keyboard_spec().pressed_this_frame() == Set::<u32>::empty()
    &&& after.keyboard_spec().released_this_frame() == Set::<u32>::empty()
    &&& after.mouse_spec().pressed() == before.mouse_spec().pressed()
    &&& after.mouse_spec().pressed_this_frame() == Set::<u32>::empty()
    &&& after.mouse_spec().released_this_frame() == Set::<u32>::empty()
    &&& !after.close_requested_spec()
    &&& after.new_inner_size_spec() is None
    &&& after.matrix_events_spec() == before.matrix_events_spec()
}

/// Law: once a key went up, it is no longer held, and it counts as released
/// in this frame, whatever was held before.
pub proof fn lemma_released_key_not_held<E>(before: Events<E>, after: Events<E>, c: u32, repeat: bool)
    requires
        events_handled(
            before,
            after,
            WindowEvent::KeyboardInput { virtual_keycode: Some(c), state: ElementState::Released, repeat },
        ),
    ensures
        !after.keyboard_spec().pressed().contains(c),
        after.keyboard_spec().released_this_frame().contains(c),
        forall|k: u32| k != c ==> (after.keyboard_spec().pressed().contains(k)
            <==> before.keyboard_spec().pressed().contains(k)),
{
}

/// Law: a new frame starts with nothing pressed or released in it, for the
/// keyboard and the mouse, and with every held key still held.
pub proof fn lemma_reset_empties_frame<E>(before: Events<E>, after: Events<E>)
    requires
        events_reset(before, after),
    ensures
        forall|k: u32| !after.keyboard_spec().pressed_this_frame().contains(k)
            && !after.keyboard_spec().released_this_frame().contains(k)
            && !after.mouse_spec().pressed_this_frame().contains(k)
            && !after.mouse_spec().released_this_frame().contains(k),
        forall|k: u32| after.keyboard_spec().pressed().contains(k) <==> before.keyboard_spec().pressed().contains(k),
{
}

/// Law: a press followed by a release of the same key, then a new frame,
/// leaves the key neither held, nor pressed or released in the new frame.
pub proof fn lemma_press_release_then_new_frame<E>(e0: Events<E>, e1: Events<E>, e2: Events<E>, e3: Events<E>, c: u32)
    requires
        events_handled(
            e0,
            e1,
            WindowEvent::KeyboardInput { virtual_keycode: Some(c), state: ElementState::Pressed, repeat: false },
        ),
        events_handled(
            e1,
            e2,
            WindowEvent::KeyboardInput { virtual_keycode: Some(c), state: ElementState::Released, repeat: false },
        ),
        events_reset(e2, e3),
    ensures
        e1.keyboard_spec().pressed().contains(c),
        !e2.keyboard_spec().pressed().contains(c),
        !e3.keyboard_spec().pressed().contains(c),
        !e3.keyboard_spec().pressed_this_frame().contains(c),
        !e3.keyboard_spec().released_this_frame().contains(c),
{
}

/// Law: an input that goes down and then up is no longer held, was pressed
/// and released in this frame; after `reset` it is neither pressed nor
/// released in the next frame. `p0` to `p3` are the held, pressed and
/// released sets before, after `on_press`, after `on_release`, after `reset`.
pub proof fn lemma_press_release_reset<T>(
    held: Seq<Set<T>>,
    pressed: Seq<Set<T>>,
    released: Seq<Set<T>>,
    input: T,
)
    requires
        held.len() == 4 && pressed.len() == 4 && released.len() == 4,
        held[1] == held[0].insert(input),
        pressed[1] == pressed[0].insert(input),
        released[1] == released[0],
        held[2] == held[1].remove(input),
        pressed[2] == pressed[1],
        released[2] == released[1].insert(input),
        held[3] == held[2],
        pressed[3] == Set::<T>::empty(),
        released[3] == Set::<T>::empty(),
    ensures
        held[1].contains(input),
        !held[2].contains(input),
        pressed[2].contains(input) && released[2].contains(input),
        !held[3].contains(input) && !pressed[3].contains(input) && !released[3].contains(input),
{
}

} // verus!
