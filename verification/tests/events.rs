use matrix_engine::engine::events::event_registry::{
    ElementState, Event, EventRegistry, FrameStart, PhysicalSize, StartCause, WindowEvent,
    WindowEventRegistry,
};
use matrix_engine::engine::events::{Events, InputManager};

fn key(code: u32, state: ElementState, repeat: bool) -> WindowEvent {
    WindowEvent::KeyboardInput { virtual_keycode: Some(code), state, repeat }
}

#[test]
fn input_manager_press_release_reset() {
    let mut m: InputManager<u32> = InputManager::new();
    m.on_press(7);
    assert!(m.is_pressed(7) && m.is_just_pressed(7) && !m.is_just_released(7));
    m.on_release(7);
    assert!(!m.is_pressed(7) && m.is_just_pressed(7) && m.is_just_released(7));
    m.on_press(8);
    m.reset();
    assert!(m.is_pressed(8) && !m.is_just_pressed(8) && !m.is_just_released(7));
}

#[test]
fn window_registry_keys_and_frames() {
    let mut w = WindowEventRegistry::default();
    w.process(&key(1, ElementState::Pressed, false));
    assert!(w.is_pressed(1) && w.is_pressed_down(1));
    w.update();
    assert!(w.is_pressed(1) && !w.is_pressed_down(1));
    // held keys are not pressed down again
    w.process(&key(1, ElementState::Pressed, true));
    assert!(!w.is_pressed_down(1));
    w.process(&key(1, ElementState::Released, false));
    assert!(w.is_pressed(1) && w.is_released(1));
    w.update();
    assert!(!w.is_pressed(1) && !w.is_released(1));
    w.process(&WindowEvent::Resized(PhysicalSize { width: 640, height: 480 }));
    assert_eq!(*w.is_resized(), PhysicalSize { width: 640, height: 480 });
    assert_eq!(w.size(), PhysicalSize { width: 640, height: 480 });
    assert!(!w.should_close());
    w.process(&WindowEvent::CloseRequested);
    assert!(w.should_close());
    w.process(&WindowEvent::KeyboardInput { virtual_keycode: None, state: ElementState::Pressed, repeat: false });
    w.process(&WindowEvent::Other);
}

#[test]
fn events_follow_keyboard_mouse_and_window() {
    let mut e: Events<&str> = Events::new();
    e.handle_window_event(&key(3, ElementState::Pressed, false));
    e.handle_window_event(&key(4, ElementState::Pressed, true));
    e.handle_window_event(&WindowEvent::MouseInput { state: ElementState::Pressed, button: 0 });
    e.handle_window_event(&WindowEvent::Resized(PhysicalSize { width: 1, height: 2 }));
    e.handle_window_event(&WindowEvent::CloseRequested);
    assert!(e.keyboard().is_pressed(3) && !e.keyboard().is_pressed(4));
    assert!(e.mouse().is_just_pressed(0));
    assert_eq!(e.new_inner_size(), Some(&PhysicalSize { width: 1, height: 2 }));
    assert!(e.close_requested());
    e.handle_window_event(&key(3, ElementState::Released, false));
    e.handle_window_event(&WindowEvent::MouseInput { state: ElementState::Released, button: 0 });
    assert!(e.keyboard().is_just_released(3) && !e.mouse().is_pressed(0));
    e.reset();
    assert!(!e.close_requested() && e.new_inner_size().is_none());
    assert!(!e.keyboard().is_just_pressed(3) && !e.mouse().is_just_released(0));
}

#[test]
fn event_registry_frames_and_windows() {
    let mut r = EventRegistry::new();
    assert_eq!(r.process(&Event::WindowEvent { window_id: 9, event: key(5, ElementState::Pressed, false) }), FrameStart::Keep);
    assert!(r.get_window_events(9).is_pressed_down(5));
    assert!(!r.get_window_events(8).is_pressed(5));
    assert_eq!(r.process(&Event::UpdateDeltaTime), FrameStart::FromEvent);
    assert_eq!(r.process(&Event::UpdateDeltaTime), FrameStart::Keep);
    r.process(&Event::WindowEvent { window_id: 9, event: key(5, ElementState::Released, false) });
    assert_eq!(r.process(&Event::NewEvents(StartCause::Init)), FrameStart::Now);
    assert!(!r.get_window_events(9).is_pressed(5));
    assert_eq!(r.process(&Event::UpdateDeltaTime), FrameStart::FromEvent);
    assert_eq!(r.process(&Event::NewEvents(StartCause::Other)), FrameStart::Keep);
    assert_eq!(r.process(&Event::Other), FrameStart::Keep);

    let mut owned = EventRegistry::new_owner_started();
    owned.process(&Event::WindowEvent { window_id: 1, event: key(2, ElementState::Pressed, false) });
    assert_eq!(owned.process(&Event::NewEvents(StartCause::ResumeTimeReached)), FrameStart::Keep);
    assert!(owned.get_window_events(1).is_pressed_down(2));
    assert!(!owned.update());
}

#[test]
fn only_first_round_and_end_of_wait_start_a_round() {
    assert!(Event::NewEvents(StartCause::Init).starts_round());
    assert!(Event::NewEvents(StartCause::ResumeTimeReached).starts_round());
    assert!(!Event::NewEvents(StartCause::Other).starts_round());
    assert!(!Event::UpdateDeltaTime.starts_round());
    assert!(!Event::Other.starts_round());
    assert!(!Event::WindowEvent { window_id: 1, event: WindowEvent::CloseRequested }.starts_round());
}

#[test]
fn engine_events_queue_in_order_and_outlive_reset() {
    let mut e: Events<&str> = Events::new();
    assert!(e.matrix_events().is_empty());
    e.handle_matrix_event("exit");
    e.handle_window_event(&WindowEvent::CloseRequested);
    e.handle_matrix_event("changed");
    assert_eq!(e.matrix_events(), &["exit", "changed"]);
    e.reset();
    assert_eq!(e.matrix_events(), &["exit", "changed"]);
    assert!(!e.close_requested());
}
