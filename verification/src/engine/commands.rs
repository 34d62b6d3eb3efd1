use vstd::prelude::*;

verus! {

/// A change to make to a `Target` later, when the buffer holding it is drained.
pub trait Command<Target> {
    fn run(&mut self, data: &mut Target);
}

} // verus!
