pub mod components;
pub mod entities;
pub mod resources;
