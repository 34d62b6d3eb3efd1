use vstd::prelude::*;

verus! {

/// A value that a scene holds once, not per entity.
pub trait Resource: Send {}

/// A slot that holds a resource, or nothing yet.
pub struct ResourceHolder<T> {
    data: Option<T>,
}

impl<T> Default for ResourceHolder<T> {
    fn default() -> (r: Self)
        ensures
            r.value() is None,
    {
        Self::new(None)
    }
}

impl<T> ResourceHolder<T> {
    /// The resource held, if any.
    pub closed spec fn value(&self) -> Option<T> {
        self.data
    }

    /// The slot holding `data`.
    pub fn new(data: Option<T>) -> (r: Self)
        ensures
            r.value() == data,
    {
        ResourceHolder { data }
    }

    /// Puts `data` in the slot and gives back what it held.
    pub fn replace(&mut self, data: T) -> (r: Option<T>)
        ensures
            r == old(self).value(),
            final(self).value() == Some(data),
    {
        let old = self.data.take();
        self.data = Some(data);
        old
    }

    /// The resource, if one is held.
    pub fn as_ref(&self) -> (r: Option<&T>)
        ensures
            r == match self.value() {
                Some(t) => Some(&t),
                None => None::<&T>,
            },
    {
        self.data.as_ref()
    }

    /// The resource for writing, if one is held; what is written through it
    /// becomes the resource held.
    pub fn as_mut(&mut self) -> (r: Option<&mut T>)
        ensures
            match r {
                Some(t) => old(self).value() == Some(*t) && final(self).value() == Some(*final(t)),
                None => old(self).value() is None && final(self).value() is None,
            },
    {
        self.data.as_mut()
    }
}

} // verus!
