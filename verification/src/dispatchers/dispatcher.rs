use vstd::prelude::*;

verus! {

/// Work prepared by a dispatcher, ready to be called once.
pub trait DispatchedFunction {
    type Out;

    fn call(self) -> Self::Out;
}

} // verus!
