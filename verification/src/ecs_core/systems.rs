use vstd::prelude::*;

use crate::ecs_core::resources::Resource;

verus! {

/// Why a query could not be served.
#[derive(Debug, Clone, Copy, PartialEq, Eq, Structural)]
pub enum QueryError {
    /// The data exists but another system holds it.
    CurrentlyNotAvailable,
    /// The data was never installed.
    DoesntExist,
}

/// Asks for reading the components of type `T`.
#[derive(Debug)]
pub struct ReadC<T>(core::marker::PhantomData<T>);

/// Asks for writing the components of type `T`.
#[derive(Debug)]
pub struct WriteC<T>(core::marker::PhantomData<T>);

/// Asks for reading a resource that may cross threads.
#[derive(Debug)]
pub struct ReadR<R: Resource + Send>(core::marker::PhantomData<R>);

/// Asks for writing a resource that may cross threads.
#[derive(Debug)]
pub struct WriteR<R: Resource + Send>(core::marker::PhantomData<R>);

/// Asks for reading a resource that stays on the main thread.
#[derive(Debug)]
pub struct ReadNonSendR<R: Resource>(core::marker::PhantomData<R>);

/// Asks for writing a resource that stays on the main thread.
#[derive(Debug)]
pub struct WriteNonSendR<R: Resource>(core::marker::PhantomData<R>);

/// Marks a system made from a query system.
pub struct QuerySystemMarker;

/// Marks a system made from a function.
pub struct FunctionSystemMarker;

} // verus!
