pub mod ecs_core;
pub mod dispatchers;
pub mod engine;
pub mod identity;
mod keyed;
