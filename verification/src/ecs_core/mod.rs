pub mod archtypes;
pub mod component;
pub mod components;
pub mod entity;
pub mod read_write_state;
pub mod resources;
pub mod scene;
pub mod system;
pub mod systems;
