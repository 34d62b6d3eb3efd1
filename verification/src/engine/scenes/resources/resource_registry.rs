use vstd::prelude::*;

verus! {

/// The resources were not available for the access asked for.
#[derive(Debug)]
pub struct ResourcesNotAvailable;

/// A token handed back that does not fit the access state.
#[derive(Debug)]
pub struct NotSuitableResourceRecieve;

/// A read access handed out by a `ResourceState`.
pub struct ResourceRef<T> {
    marker: core::marker::PhantomData<T>,
}

/// A write access handed out by a `ResourceState`.
pub struct ResourceMut<T> {
    marker: core::marker::PhantomData<T>,
}

impl<T> ResourceRef<T> {
    fn new() -> Self {
        ResourceRef { marker: core::marker::PhantomData }
    }
}

impl<T> ResourceMut<T> {
    fn new() -> Self {
        ResourceMut { marker: core::marker::PhantomData }
    }
}

/// A slot that holds a resource, or nothing yet.
#[derive(Debug)]
pub struct ResourceHolder<R> {
    data: Option<R>,
}

impl<R> Default for ResourceHolder<R> {
    fn default() -> (r: Self)
        ensures
            r.value() is None,
    {
        ResourceHolder { data: None }
    }
}

impl<R> ResourceHolder<R> {
    /// The resource held, if any.
    pub closed spec fn value(&self) -> Option<R> {
        self.data
    }

    /// The resource, first made by `f` when none is held yet.
    pub fn get_or_insert_with<F: FnOnce() -> R>(&mut self, f: F) -> (r: &mut R)
        requires
            old(self).value() is None ==> f.requires(()),
        ensures
            old(self).value() is Some ==> *r == old(self).value()->Some_0,
            old(self).value() is None ==> f.ensures((), *r),
            final(self).value() == Some(*final(r)),
    {
        if self.data.is_none() {
            self.data = Some(f());
        }
        self.data.as_mut().unwrap()
    }

    /// The slot, for reading.
    pub fn as_ref(&self) -> (r: &Option<R>)
        ensures
            *r == self.value(),
    {
        &self.data
    }

    /// The slot, for writing; what is written becomes the slot.
    pub fn as_mut(&mut self) -> (r: &mut Option<R>)
        ensures
            *r == old(self).value(),
            final(self).value() == *final(r),
    {
        &mut self.data
    }
}

#[derive(Debug)]
enum State {
    Write,
    Read(i64),
    Taken,
}

impl State {
    /// The reader count is never negative.
    #[verifier::type_invariant]
    spec fn counted(self) -> bool {
        match self {
            State::Read(c) => c >= 0,
            _ => true,
        }
    }
}

/// A resource slot with the access handed out for it: free, read by some
/// readers, or taken for writing.
#[derive(Debug)]
pub struct ResourceState<T> {
    comps: ResourceHolder<T>,
    state: State,
}

impl<T> ResourceState<T> {
    /// The reader count is never negative.
    pub closed spec fn wf(&self) -> bool {
        match self.state {
            State::Read(c) => c >= 0,
            _ => true,
        }
    }

    /// The resource held, if any.
    pub closed spec fn value(&self) -> Option<T> {
        self.comps.value()
    }

    /// Whether the state counts readers (this stays so once the last reader
    /// has handed its access back).
    pub closed spec fn reading(&self) -> bool {
        self.state is Read
    }

    /// How many read accesses are out, so that a caller can tell whether one more
    /// can be counted.
    pub fn reader_count(&self) -> (r: i64)
        ensures
            r == self.readers(),
            self.wf(),
    {
        proof { use_type_invariant(&self.state); }
        match &self.state {
            State::Read(c) => *c,
            _ => 0,
        }
    }

    /// How many read accesses are out.
    pub closed spec fn readers(&self) -> int {
        match self.state {
            State::Read(c) => c as int,
            _ => 0,
        }
    }

    /// Whether the write access is out.
    pub closed spec fn taken(&self) -> bool {
        self.state is Taken
    }

    /// The same resource and access state.
    pub open spec fn same_state(&self, other: &Self) -> bool {
        &&& self.value() == other.value()
        &&& self.reading() == other.reading()
        &&& self.readers() == other.readers()
        &&& self.taken() == other.taken()
    }

    /// The slot, with no access out.
    pub fn new(comps: ResourceHolder<T>) -> (r: Self)
        ensures
            r.wf(),
            r.value() == comps.value(),
            !r.reading(),
            !r.taken(),
    {
        ResourceState { comps, state: State::Write }
    }

    /// Hands out a read access, unless the write access is out.
    pub fn try_read(&mut self) -> (r: Result<ResourceRef<T>, ResourcesNotAvailable>)
        requires
            old(self).readers() < i64::MAX,
        ensures
            final(self).wf(),
            final(self).value() == old(self).value(),
            old(self).taken() ==> r is Err && final(self).same_state(old(self)),
            !old(self).taken() ==> r is Ok && final(self).reading() && final(self).readers()
                == old(self).readers() + 1 && !final(self).taken(),
    {
        proof { use_type_invariant(&self.state); }
        match self.state {
            State::Write => {
                self.state = State::Read(1);
                Ok(ResourceRef::new())
            },
            State::Read(counter) => {
                self.state = State::Read(counter + 1);
                Ok(ResourceRef::new())
            },
            State::Taken => Err(ResourcesNotAvailable),
        }
    }

    /// Hands out the write access, when the slot is free and no reader has
    /// ever been counted since it was last freed.
    pub fn try_write(&mut self) -> (r: Result<ResourceMut<T>, ResourcesNotAvailable>)
        ensures
            final(self).wf(),
            final(self).value() == old(self).value(),
            (old(self).taken() || old(self).reading()) ==> r is Err && final(self).same_state(
                old(self),
            ),
            !(old(self).taken() || old(self).reading()) ==> r is Ok && final(self).taken(),
    {
        proof { use_type_invariant(&self.state); }
        match self.state {
            State::Write => {
                self.state = State::Taken;
                Ok(ResourceMut::new())
            },
            _ => Err(ResourcesNotAvailable),
        }
    }

    /// Takes back a read access: the reader count drops by one.
    pub fn recieve_ref(&mut self, comps: &ResourceRef<T>) -> (r: Result<(), NotSuitableResourceRecieve>)
        ensures
            final(self).wf(),
            final(self).value() == old(self).value(),
            old(self).readers() == 0 ==> r is Err && final(self).same_state(old(self)),
            old(self).readers() != 0 ==> r is Ok && final(self).reading() && final(self).readers()
                == old(self).readers() - 1,
    {
        proof { use_type_invariant(&self.state); }
        match self.state {
            State::Read(count) => {
                if count > 0 {
                    self.state = State::Read(count - 1);
                    Ok(())
                } else {
                    Err(NotSuitableResourceRecieve)
                }
            },
            _ => Err(NotSuitableResourceRecieve),
        }
    }

    /// Takes back the write access: the slot is free again.
    pub fn recieve_mut(&mut self, comps: &ResourceMut<T>) -> (r: Result<(), NotSuitableResourceRecieve>)
        ensures
            final(self).wf(),
            final(self).value() == old(self).value(),
            !old(self).taken() ==> r is Err && final(self).same_state(old(self)),
            old(self).taken() ==> r is Ok && !final(self).taken() && !final(self).reading(),
    {
        proof { use_type_invariant(&self.state); }
        match self.state {
            State::Taken => {
                self.state = State::Write;
                Ok(())
            },
            _ => Err(NotSuitableResourceRecieve),
        }
    }

    /// Whether a read access would be handed out now.
    pub fn available_for_read(&self) -> (r: bool)
        ensures
            r == !self.taken(),
            self.wf(),
    {
        proof { use_type_invariant(&self.state); }
        match self.state {
            State::Taken => false,
            State::Write | State::Read(_) => true,
        }
    }

    /// Whether no access is out: the slot is free, or its reader count is zero.
    pub fn available_for_write(&self) -> (r: bool)
        ensures
            r == (!self.taken() && self.readers() == 0),
            self.wf(),
    {
        proof { use_type_invariant(&self.state); }
        match self.state {
            State::Taken => false,
            State::Read(count) => count == 0,
            State::Write => true,
        }
    }

    /// The slot, seen through a read access while the write access is not out.
    pub fn get(&self, comps: &ResourceRef<T>) -> (r: Option<&ResourceHolder<T>>)
        ensures
            !self.taken() ==> r is Some && r->Some_0.value() == self.value(),
            self.taken() ==> r is None,
    {
        match self.state {
            State::Taken => None,
            _ => Some(&self.comps),
        }
    }

    /// The slot, written through the write access while it is out; what is
    /// written through the result becomes the slot.
    pub fn get_mut(&mut self, comps: &ResourceMut<T>) -> (r: Option<&mut ResourceHolder<T>>)
        ensures
            old(self).taken() ==> r is Some && r->Some_0.value() == old(self).value()
                && final(self).value() == final(r->Some_0).value() && final(self).taken()
                && final(self).wf(),
            !old(self).taken() ==> r is None && final(self).same_state(old(self)) && final(self).wf(),
    {
        proof { use_type_invariant(&self.state); }
        match self.state {
            State::Taken => Some(&mut self.comps),
            _ => None,
        }
    }
}

/// Law: once a read access was handed out and back, the reader count is
/// back where it was, but the slot still counts readers, so the write access
/// stays refused until the slot is freed by a write access (which it cannot
/// get): `s1` is the free slot `s0` after `try_read`, `s2` is `s1` after
/// `recieve_ref`.
pub proof fn lemma_read_round_trip_keeps_reading<T>(s0: ResourceState<T>, s1: ResourceState<T>, s2: ResourceState<T>)
    requires
        s0.wf(),
        !s0.taken(),
        !s0.reading(),
        s1.reading(),
        s1.readers() == s0.readers() + 1,
        !s1.taken(),
        s1.value() == s0.value(),
        s2.reading(),
        s2.readers() == s1.readers() - 1,
        !s2.taken(),
        s2.value() == s1.value(),
    ensures
        s2.readers() == 0,
        s2.reading(),
        !s2.same_state(&s0),
{
}

} // verus!
