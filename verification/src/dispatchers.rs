use vstd::prelude::*;

pub mod context;
pub mod dispatcher;
pub mod function_systems;
pub mod systems;

verus! {

/// The data that a system asked for could not be handed to it.
#[derive(Debug, Clone, Copy, Default, PartialEq, Eq, Structural)]
pub struct DispatchError;

} // verus!
