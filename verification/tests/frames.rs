use matrix_engine::ecs_core::component::ComponentMap;
use matrix_engine::ecs_core::entity::Entity as CoreEntity;
use matrix_engine::engine::component::{Component, ComponentCollection};
use matrix_engine::engine::components::Components;
use matrix_engine::engine::data_state::{DataState, DataStateAccessError};
use matrix_engine::engine::entity::Entity;
use matrix_engine::engine::events::event_registry::{ElementState, WindowEvent};
use matrix_engine::engine::events::Events;
use matrix_engine::engine::plugins::{build_plugins, Plugin};
use matrix_engine::engine::scene::{begin_frame, end_frame, scene_window_event};
use matrix_engine::engine::runtime::{system_done, DoneAction, SystemControlFlow, SystemIds, SystemNotFound};
use matrix_engine::engine::{control_after_update, loop_step, LoopAction, LoopControl, LoopEvent};
use matrix_engine::engine::scenes::components::component_registry::Components as SceneComponents;
use matrix_engine::engine::scenes::entities::Entity as SceneEntity;

fn press(code: u32) -> WindowEvent {
    WindowEvent::KeyboardInput { virtual_keycode: Some(code), state: ElementState::Pressed, repeat: false }
}

#[test]
fn window_events_are_recorded_and_redraw_runs_a_frame() {
    let mut events: DataState<Events<u8>> = DataState::default();
    assert!(!scene_window_event(&mut events, &press(4)));
    assert!(scene_window_event(&mut events, &WindowEvent::RedrawRequested));
    assert!(events.can_write());
    assert!(events.get().unwrap().keyboard().is_just_pressed(4));
}

#[test]
fn a_frame_takes_all_three_tokens_and_resets_the_events() {
    let mut c: DataState<u32> = DataState::new(1);
    let mut e: DataState<Events<u8>> = DataState::default();
    let mut r: DataState<u32> = DataState::new(2);
    scene_window_event(&mut e, &press(7));
    e.get_mut().unwrap().handle_matrix_event(9);

    let (tc, te, tr) = begin_frame(&mut c, &mut e, &mut r).unwrap();
    assert!(!c.can_read() && !e.can_read() && !r.can_read());
    end_frame(&mut c, &mut e, &mut r, tc, te, tr, true);
    assert!(c.can_write() && e.can_write() && r.can_write());
    let ev = e.get().unwrap();
    assert!(ev.keyboard().is_pressed(7) && !ev.keyboard().is_just_pressed(7));
    assert_eq!(ev.matrix_events(), &[9]);
    assert_eq!(*c.get().unwrap(), 1);
}

#[test]
fn a_frame_takes_no_token_when_one_state_is_busy() {
    let mut c: DataState<u32> = DataState::new(1);
    let mut e: DataState<Events<u8>> = DataState::default();
    let mut r: DataState<u32> = DataState::new(2);
    let read = r.read().unwrap();
    assert_eq!(begin_frame(&mut c, &mut e, &mut r).unwrap_err(), DataStateAccessError::NotAvailableError);
    assert!(c.can_write() && e.can_write());
    r.consume_read(read).unwrap();
    let (tc, te, tr) = begin_frame(&mut c, &mut e, &mut r).unwrap();
    e.get_mut_with(&te).unwrap().handle_window_event(&WindowEvent::CloseRequested);
    end_frame(&mut c, &mut e, &mut r, tc, te, tr, false);
    assert!(e.get().unwrap().close_requested());
}

struct Named(&'static str);

impl Plugin<Vec<&'static str>> for Named {
    fn build(&self, scene: &mut Vec<&'static str>) {
        scene.push(self.0);
    }
}

#[test]
fn plugins_are_built_last_added_first() {
    let mut plugins: Vec<Box<dyn Plugin<Vec<&'static str>>>> =
        vec![Box::new(Named("a")), Box::new(Named("b")), Box::new(Named("c"))];
    let mut scene: Vec<&'static str> = vec![];
    let built = build_plugins(&mut plugins, &mut scene);
    assert!(plugins.is_empty());
    assert_eq!(built.len(), 3);
    assert_eq!(scene, vec!["c", "b", "a"]);
}

#[test]
fn mutable_iteration_updates_every_component() {
    let mut m: ComponentMap<u32> = ComponentMap::new();
    m.push(CoreEntity::from_id(3), 30);
    m.push(CoreEntity::from_id(1), 10);
    m.iter_mut(|e: CoreEntity, v: u32| v + e.id() as u32);
    let got: Vec<(u64, u32)> = m.iter().into_iter().map(|(e, v)| (e.id(), *v)).collect();
    assert_eq!(got, vec![(1, 11), (3, 33)]);

    let mut c: Components<u32> = Components::new();
    c.insert(Entity::from_id(2), 5);
    c.iter_mut(|_e: Entity, v: u32| v * 2);
    assert_eq!(c.get(&Entity::from_id(2)), Some(&10));

    let mut s: SceneComponents<u32> = SceneComponents::new();
    s.add(SceneEntity::from_id(4), 1);
    s.add(SceneEntity::from_id(0), 2);
    s.iter_mut(|e: SceneEntity, v: u32| v + 100 * e.id() as u32);
    assert_eq!(s.get(&SceneEntity::from_id(4)), Some(&401));
    assert_eq!(s.get(&SceneEntity::from_id(0)), Some(&2));

    let mut col: ComponentCollection<Counter> = ComponentCollection::default();
    col.insert(&Entity::from_id(1), Counter(1));
    col.insert(&Entity::from_id(3), Counter(3));
    col.iter_mut(|e: Entity, c: Counter| Counter(c.0 + 10 * e.id() as u32));
    assert_eq!(col.get(&Entity::from_id(1)).map(|c| c.0), Some(11));
    assert_eq!(col.get(&Entity::from_id(3)).map(|c| c.0), Some(33));
    assert!(col.get(&Entity::from_id(2)).is_none());
}

struct Counter(u32);

impl Component for Counter {}

#[test]
fn the_loop_updates_when_a_round_is_done_and_exits_on_quit() {
    assert_eq!(loop_step(LoopEvent::MainEventsCleared), LoopAction::Update);
    assert_eq!(loop_step(LoopEvent::Other), LoopAction::Queue);
    assert_eq!(control_after_update(true), LoopControl::Exit);
    assert_eq!(control_after_update(false), LoopControl::Continue);
}

#[test]
fn a_done_system_is_kept_removed_or_ends_the_engine() {
    let mut send = SystemIds::new();
    send.add(1);
    send.add(2);
    let mut non_send = SystemIds::new();
    non_send.add(2);
    non_send.add(3);
    let mut regs = vec![send, non_send];

    assert_eq!(system_done(&mut regs, 9, SystemControlFlow::Continue), Err(SystemNotFound));
    assert_eq!(system_done(&mut regs, 3, SystemControlFlow::Continue), Ok(DoneAction::Keep));
    assert_eq!(system_done(&mut regs, 1, SystemControlFlow::Quit), Ok(DoneAction::Quit));
    assert!(regs[0].contains(1));
    assert_eq!(system_done(&mut regs, 2, SystemControlFlow::Remove), Ok(DoneAction::Removed));
    assert!(!regs[0].contains(2) && regs[1].contains(2));
    assert_eq!(system_done(&mut regs, 2, SystemControlFlow::Remove), Ok(DoneAction::Removed));
    assert!(!regs[1].contains(2) && regs[1].contains(3));
}
