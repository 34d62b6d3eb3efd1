use vstd::prelude::*;

verus! {

/// The groups in which a scene runs its systems, in this order.
#[derive(Debug, PartialEq, Eq, Structural, PartialOrd, Ord, Clone, Copy)]
pub enum SystemOrdering {
    Events,
    Logic,
    Last,
}

impl SystemOrdering {
    /// The place of the group in the running order, from 0.
    pub open spec fn rank(self) -> int {
        match self {
            SystemOrdering::Events => 0,
            SystemOrdering::Logic => 1,
            SystemOrdering::Last => 2,
        }
    }

    /// The place of the group in the running order, from 0.
    pub fn index(&self) -> (r: usize)
        ensures
            r == self.rank(),
    {
        match self {
            SystemOrdering::Events => 0,
            SystemOrdering::Logic => 1,
            SystemOrdering::Last => 2,
        }
    }
}

} // verus!
