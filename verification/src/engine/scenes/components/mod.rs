pub mod component_registry;
