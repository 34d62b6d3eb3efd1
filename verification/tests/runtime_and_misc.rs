use std::sync::atomic::{AtomicBool, AtomicU64, Ordering};
use std::sync::Arc;

use matrix_engine::dispatchers::context::Context;
use matrix_engine::dispatchers::function_systems::{Wrappable, WithContextFunctionSystem, WithoutContextFunctionSystem, Wrapper};
use matrix_engine::ecs_core::resources::ResourceHolder as CoreResourceHolder;
use matrix_engine::ecs_core::scene::SystemOrdering;
use matrix_engine::engine::plugins::window_plugin::WindowPlugin;
use matrix_engine::engine::resources::ResourceHolder;
use matrix_engine::engine::runtime::{pool_size, pool_size_with_cpu_count, worker_count, worker_count_with_cpu_cores};
use matrix_engine::engine::scenes::resources::resource_registry::ResourceHolder as SceneResourceHolder;
use matrix_engine::engine::system_registries::{
    Stage, StageDescriptor, SystemCollection, SystemRegistry, SystemRegistryNextFrameError, WindowId,
};

#[test]
fn worker_counts() {
    assert_eq!(worker_count(1), 4);
    assert_eq!(worker_count(5), 4);
    assert_eq!(worker_count(6), 5);
    assert_eq!(worker_count(17), 16);
    assert!(worker_count_with_cpu_cores() >= 4);
    assert_eq!(pool_size(8), 8);
    assert_eq!(pool_size((1usize << 32) + 3), 3);
    assert!(pool_size_with_cpu_count() >= 1);
}

#[test]
fn system_collection_frame_cycle() {
    let mut c: SystemCollection<&'static str> = SystemCollection::default();
    c.add_system("a");
    c.add_system("b");
    assert_eq!(c.prepare_next_frame(), Err(SystemRegistryNextFrameError::NotAllSystemExhausted));
    let a = c.take_out_system().unwrap();
    c.take_back_system(a);
    let b = c.take_out_system().unwrap();
    assert_eq!(c.take_out_system(), None);
    c.take_back_system(b);
    assert_eq!(c.prepare_next_frame(), Ok(()));
    assert_eq!(c.take_out_system(), Some("a"));
    assert_eq!(c.take_out_system(), Some("b"));
}

#[test]
fn system_registry_stages() {
    let mut r: SystemRegistry<u8> = SystemRegistry::default();
    r.add_system(StageDescriptor::Update, 1);
    r.add_system(StageDescriptor::Render, 2);
    assert_eq!(r.update_systems_mut().take_out_system(), Some(1));
    assert_eq!(r.pre_update_systems_mut().take_out_system(), None);
    assert_eq!(r.post_update_systems_mut().take_out_system(), None);
    assert_eq!(r.startup_systems_mut().take_out_system(), None);
    assert_eq!(r.get_system_collection(&Stage::Render(WindowId(3)).to_descriptor()).take_out_system(), Some(2));
    assert_eq!(Stage::PreRender(WindowId(1)).to_descriptor(), StageDescriptor::PreRender);
    assert_eq!(Stage::Startup.to_descriptor(), StageDescriptor::Startup);
}

#[test]
fn resource_holders() {
    let mut h: ResourceHolder<String> = ResourceHolder::default();
    assert!(h.as_ref().is_none());
    assert_eq!(h.replace("x".to_string()), None);
    assert_eq!(h.replace("y".to_string()), Some("x".to_string()));
    h.as_mut().unwrap().push('!');
    assert_eq!(h.as_ref(), Some(&"y!".to_string()));

    let mut s: SceneResourceHolder<u32> = SceneResourceHolder::default();
    assert_eq!(*s.get_or_insert_with(|| 3), 3);
    *s.get_or_insert_with(|| unreachable!()) += 1;
    assert_eq!(s.as_ref(), &Some(4));

    let mut c = CoreResourceHolder::new(Some(1u8));
    *c.get_mut() = None;
    assert_eq!(c.get(), &None);
}

#[test]
fn context_flags() {
    let quit = Arc::new(AtomicBool::new(false));
    let fps = Arc::new(AtomicU64::new(60));
    let ctx = Context::new(quit.clone(), fps);
    assert!(!ctx.is_destroyed());
    ctx.destroy();
    assert!(ctx.is_destroyed());
    let other = ctx.clone();
    assert!(!other.is_destroyed());
    other.quit();
    assert!(quit.load(Ordering::Relaxed));
}

#[test]
fn wrapping_functions() {
    let _a: Wrapper<_, u8, WithContextFunctionSystem> =
        (|_c: &Context, x: &mut u8| *x += 1).wrap();
    let _b: Wrapper<_, u8, WithoutContextFunctionSystem> = (|x: &mut u8| *x += 1).wrap();
}

#[test]
fn plugin_and_ordering() {
    let _p = WindowPlugin::new("main");
    assert_eq!(SystemOrdering::Events.index(), 0);
    assert_eq!(SystemOrdering::Last.index(), 2);
    assert!(SystemOrdering::Events < SystemOrdering::Logic);
}
