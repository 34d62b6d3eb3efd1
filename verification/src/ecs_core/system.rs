use vstd::prelude::*;

verus! {

/// A query could not be served.
#[derive(Clone, Copy, Debug, PartialEq, Eq, Structural)]
pub enum DispatchError {
    NotAvailabele,
}

/// Asks for reading the components of type `T`.
pub struct ReadC<T>(core::marker::PhantomData<T>);

/// Asks for writing the components of type `T`.
pub struct WriteC<T>(core::marker::PhantomData<T>);

} // verus!
