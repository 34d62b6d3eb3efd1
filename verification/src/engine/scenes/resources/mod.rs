pub mod resource_registry;
