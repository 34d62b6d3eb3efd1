use vstd::prelude::*;

verus! {

/// A value that a scene holds once, not per entity.
pub trait Resource: 'static {}

impl<T: 'static> Resource for T {}

/// A slot that holds a resource, or nothing yet.
pub struct ResourceHolder<R: Resource>(Option<R>);

impl<R: Resource> ResourceHolder<R> {
    /// The slot holding `data`.
    pub fn new(data: Option<R>) -> (r: Self)
        ensures
            r.value() == data,
    {
        ResourceHolder(data)
    }

    /// The resource held, if any.
    pub closed spec fn value(&self) -> Option<R> {
        self.0
    }

    /// The slot, for reading.
    pub fn get(&self) -> (r: &Option<R>)
        ensures
            *r == self.value(),
    {
        &self.0
    }

    /// The slot, for writing; what is written becomes the slot.
    pub fn get_mut(&mut self) -> (r: &mut Option<R>)
        ensures
            *r == old(self).value(),
            final(self).value() == *final(r),
    {
        &mut self.0
    }
}

} // verus!
