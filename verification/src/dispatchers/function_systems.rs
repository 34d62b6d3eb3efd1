use vstd::prelude::*;

use crate::dispatchers::context::Context;

verus! {

/// A function made into a system over the data `Comps`; `Marker` tells
/// whether it takes the context.
pub struct Wrapper<F, Comps, Marker = ()>(F, core::marker::PhantomData<(Comps, Marker)>);

/// Marks a function that takes the context and its data.
pub struct WithContextFunctionSystem;

/// Marks a function that takes only its data.
pub struct WithoutContextFunctionSystem;

impl<F, Comps, Marker> Wrapper<F, Comps, Marker> {
    /// The wrapped function.
    pub closed spec fn function(&self) -> F {
        self.0
    }
}

/// Makes a function into a system.
pub trait Wrappable<F, Comps, Marker>: Sized {
    fn wrap(self) -> Wrapper<F, Comps, Marker>;
}

impl<F: FnMut(&Context, &mut C), C> Wrappable<F, C, WithContextFunctionSystem> for F {
    fn wrap(self) -> (r: Wrapper<F, C, WithContextFunctionSystem>)
        ensures
            r.function() == self,
    {
        Wrapper(self, core::marker::PhantomData)
    }
}

impl<F: FnMut(&mut C), C> Wrappable<F, C, WithoutContextFunctionSystem> for F {
    fn wrap(self) -> (r: Wrapper<F, C, WithoutContextFunctionSystem>)
        ensures
            r.function() == self,
    {
        Wrapper(self, core::marker::PhantomData)
    }
}

} // verus!
