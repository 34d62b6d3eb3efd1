use vstd::prelude::*;

use crate::identity::{fresh_tag, TagSource};

verus! {

/// Why an access to a `DataState` was refused.
#[derive(PartialEq, Eq, Structural, PartialOrd, Ord, Clone, Copy, Debug)]
pub enum DataStateAccessError {
    /// The value is not in an access state that allows the request.
    NotAvailableError,
    /// The token handed back was handed out by another value.
    WrongFuckingData,
}

#[derive(Debug)]
enum State {
    Ready,
    Reading { readers: i32 },
    Writing,
}

impl State {
    /// Readers are counted from one up while any read token is out.
    #[verifier::type_invariant]
    spec fn counted(self) -> bool {
        match self {
            State::Reading { readers } => readers >= 1,
            _ => true,
        }
    }
}

/// A value guarded by a reader/writer discipline that is checked at run time:
/// read tokens may be out together, the write token only alone.
#[derive(Debug)]
pub struct DataState<T> {
    data: T,
    state: State,
    tag: u64,
}

/// A token for reading the value of the `DataState` that handed it out.
#[derive(Debug)]
pub struct ReadDataState<T> {
    owner: u64,
    marker: core::marker::PhantomData<T>,
}

/// A token for writing the value of the `DataState` that handed it out.
#[derive(Debug)]
pub struct WriteDataState<T> {
    owner: u64,
    marker: core::marker::PhantomData<T>,
}

impl<T> ReadDataState<T> {
    fn new(owner: u64) -> (r: Self)
        ensures
            r.owner() == owner,
    {
        ReadDataState { owner, marker: core::marker::PhantomData }
    }

    /// The tag of the value that handed this token out.
    pub closed spec fn owner(&self) -> u64 {
        self.owner
    }
}

impl<T> WriteDataState<T> {
    fn new(owner: u64) -> (r: Self)
        ensures
            r.owner() == owner,
    {
        WriteDataState { owner, marker: core::marker::PhantomData }
    }

    /// The tag of the value that handed this token out.
    pub closed spec fn owner(&self) -> u64 {
        self.owner
    }
}

impl<T: Default> Default for DataState<T> {
    fn default() -> (r: Self)
        ensures
            r.wf(),
            r.readers() == 0,
            !r.writing(),
    {
        DataState { data: T::default(), state: State::Ready, tag: fresh_tag() }
    }
}

impl<T> DataState<T> {
    /// Readers are counted from one up while any read token is out.
    pub closed spec fn wf(&self) -> bool {
        match self.state {
            State::Reading { readers } => readers >= 1,
            _ => true,
        }
    }

    /// The guarded value.
    pub closed spec fn value(&self) -> T {
        self.data
    }

    /// The tag that the tokens of this value carry.
    pub closed spec fn tag(&self) -> u64 {
        self.tag
    }

    /// How many read tokens are out, so that a caller can tell whether one more
    /// can be counted.
    pub fn reader_count(&self) -> (r: i32)
        ensures
            r == self.readers(),
            self.wf(),
    {
        proof { use_type_invariant(&self.state); }
        match &self.state {
            State::Reading { readers } => *readers,
            _ => 0,
        }
    }

    /// How many read tokens are out (0 when none is).
    pub closed spec fn readers(&self) -> int {
        match self.state {
            State::Reading { readers } => readers as int,
            _ => 0,
        }
    }

    /// Whether the write token is out.
    pub closed spec fn writing(&self) -> bool {
        self.state is Writing
    }

    /// No token at all is out.
    pub open spec fn free(&self) -> bool {
        !self.writing() && self.readers() == 0
    }

    /// The same guarded value, tag and access state.
    pub open spec fn same_state(&self, other: &Self) -> bool {
        &&& self.value() == other.value()
        &&& self.tag() == other.tag()
        &&& self.readers() == other.readers()
        &&& self.writing() == other.writing()
    }

    /// A well-formed value is never read and written at once.
    pub proof fn lemma_exclusive(&self)
        requires
            self.wf(),
        ensures
            self.readers() >= 0,
            self.writing() ==> self.readers() == 0,
    {
    }

    /// A free value with a fresh tag.
    pub fn new(t: T) -> (r: Self)
        ensures
            r.wf(),
            r.value() == t,
            r.readers() == 0,
            !r.writing(),
    {
        DataState { data: t, state: State::Ready, tag: fresh_tag() }
    }

    /// A value that no token has been handed out for yet, tagged with the
    /// next tag of `tags`: it refuses the tokens of every other value tagged
    /// from the same source.
    pub fn with_tags(t: T, tags: &mut TagSource) -> (r: Self)
        requires
            old(tags).next_tag() < u64::MAX,
        ensures
            r.wf(),
            r.value() == t,
            r.readers() == 0,
            !r.writing(),
            r.tag() == old(tags).next_tag(),
            final(tags).next_tag() == old(tags).next_tag() + 1,
    {
        DataState { data: t, state: State::Ready, tag: tags.draw() }
    }

    /// The value, unless the write token is out.
    pub fn get(&self) -> (r: Result<&T, DataStateAccessError>)
        ensures
            self.writing() ==> r == Err::<&T, _>(DataStateAccessError::NotAvailableError),
            !self.writing() ==> r == Ok::<&T, DataStateAccessError>(&self.value()),
    {
        match self.state {
            State::Writing => Err(DataStateAccessError::NotAvailableError),
            _ => Ok(&self.data),
        }
    }

    /// The value for writing, when no token at all is out.
    pub fn get_mut(&mut self) -> (r: Result<&mut T, DataStateAccessError>)
        ensures
            (old(self).writing() || old(self).readers() != 0) ==> r == Err::<&mut T, _>(
                DataStateAccessError::NotAvailableError,
            ) && final(self).same_state(old(self)),
            !(old(self).writing() || old(self).readers() != 0) ==> r is Ok && *r->Ok_0
                == old(self).value() && final(self).value() == *final(r->Ok_0)
                && final(self).tag() == old(self).tag() && final(self).readers() == 0
                && !final(self).writing(),
            final(self).wf(),
    {
        proof { use_type_invariant(&self.state); }
        match self.state {
            State::Ready => Ok(&mut self.data),
            _ => Err(DataStateAccessError::NotAvailableError),
        }
    }

    /// Hands out a read token, unless the write token is out.
    pub fn read(&mut self) -> (r: Result<ReadDataState<T>, DataStateAccessError>)
        requires
            old(self).readers() < i32::MAX,
        ensures
            old(self).writing() ==> r == Err::<ReadDataState<T>, _>(
                DataStateAccessError::NotAvailableError,
            ) && final(self).same_state(old(self)),
            !old(self).writing() ==> r is Ok && r->Ok_0.owner() == old(self).tag()
                && final(self).readers() == old(self).readers() + 1 && !final(self).writing(),
            final(self).value() == old(self).value(),
            final(self).tag() == old(self).tag(),
            final(self).wf(),
    {
        proof { use_type_invariant(&self.state); }
        match self.state {
            State::Ready => {
                self.state = State::Reading { readers: 1 };
                Ok(ReadDataState::new(self.tag))
            },
            State::Reading { readers } => {
                self.state = State::Reading { readers: readers + 1 };
                Ok(ReadDataState::new(self.tag))
            },
            State::Writing => Err(DataStateAccessError::NotAvailableError),
        }
    }

    /// Hands out the write token, when no token at all is out.
    pub fn write(&mut self) -> (r: Result<WriteDataState<T>, DataStateAccessError>)
        ensures
            (old(self).writing() || old(self).readers() != 0) ==> r == Err::<
                WriteDataState<T>,
                _,
            >(DataStateAccessError::NotAvailableError) && final(self).same_state(old(self)),
            !(old(self).writing() || old(self).readers() != 0) ==> r is Ok && r->Ok_0.owner()
                == old(self).tag() && final(self).writing() && final(self).readers() == 0,
            final(self).value() == old(self).value(),
            final(self).tag() == old(self).tag(),
            final(self).wf(),
    {
        proof { use_type_invariant(&self.state); }
        match self.state {
            State::Reading { .. } | State::Writing => Err(DataStateAccessError::NotAvailableError),
            State::Ready => {
                self.state = State::Writing;
                Ok(WriteDataState::new(self.tag))
            },
        }
    }

    /// Takes back the write token: the value is free again.
    pub fn consume_write(&mut self, data: WriteDataState<T>) -> (r: Result<(), DataStateAccessError>)
        ensures
            data.owner() != old(self).tag() ==> r == Err::<(), _>(
                DataStateAccessError::WrongFuckingData,
            ),
            data.owner() == old(self).tag() && !old(self).writing() ==> r == Err::<(), _>(
                DataStateAccessError::NotAvailableError,
            ),
            r is Err ==> final(self).same_state(old(self)),
            data.owner() == old(self).tag() && old(self).writing() ==> r is Ok
                && !final(self).writing() && final(self).readers() == 0,
            final(self).value() == old(self).value(),
            final(self).tag() == old(self).tag(),
            final(self).wf(),
    {
        proof { use_type_invariant(&self.state); }
        if data.owner != self.tag {
            return Err(DataStateAccessError::WrongFuckingData);
        }
        match self.state {
            State::Writing => {
                self.state = State::Ready;
                Ok(())
            },
            State::Reading { .. } | State::Ready => Err(DataStateAccessError::NotAvailableError),
        }
    }

    /// Takes back a read token: the reader count drops by one.
    pub fn consume_read(&mut self, data: ReadDataState<T>) -> (r: Result<(), DataStateAccessError>)
        ensures
            data.owner() != old(self).tag() ==> r == Err::<(), _>(
                DataStateAccessError::WrongFuckingData,
            ),
            data.owner() == old(self).tag() && old(self).readers() == 0 ==> r == Err::<(), _>(
                DataStateAccessError::NotAvailableError,
            ),
            r is Err ==> final(self).same_state(old(self)),
            data.owner() == old(self).tag() && old(self).readers() != 0 ==> r is Ok
                && final(self).readers() == old(self).readers() - 1 && !final(self).writing(),
            final(self).value() == old(self).value(),
            final(self).tag() == old(self).tag(),
            final(self).wf(),
    {
        proof { use_type_invariant(&self.state); }
        if data.owner != self.tag {
            return Err(DataStateAccessError::WrongFuckingData);
        }
        match self.state {
            State::Reading { readers } => {
                let left = readers - 1;
                if left <= 0 {
                    self.state = State::Ready;
                } else {
                    self.state = State::Reading { readers: left };
                }
                Ok(())
            },
            State::Writing | State::Ready => Err(DataStateAccessError::NotAvailableError),
        }
    }

    /// Whether a read token would be handed out now.
    pub fn can_read(&self) -> (r: bool)
        ensures
            r == !self.writing(),
            self.wf(),
    {
        proof { use_type_invariant(&self.state); }
        match self.state {
            State::Ready | State::Reading { .. } => true,
            State::Writing => false,
        }
    }

    /// Whether the write token would be handed out now.
    pub fn can_write(&self) -> (r: bool)
        ensures
            r == (!self.writing() && self.readers() == 0),
            self.wf(),
    {
        proof { use_type_invariant(&self.state); }
        match self.state {
            State::Ready => true,
            State::Reading { .. } | State::Writing => false,
        }
    }

    /// The value, read through a read token of this value that is out.
    pub fn get_with(&self, read: &ReadDataState<T>) -> (r: Option<&T>)
        ensures
            read.owner() == self.tag() && self.readers() != 0 ==> r == Some(&self.value()),
            !(read.owner() == self.tag() && self.readers() != 0) ==> r is None,
    {
        proof { use_type_invariant(&self.state); }
        if read.owner == self.tag {
            match self.state {
                State::Reading { .. } => Some(&self.data),
                _ => None,
            }
        } else {
            None
        }
    }

    /// The value, written through the write token of this value while it is out.
    pub fn get_mut_with(&mut self, write: &WriteDataState<T>) -> (r: Option<&mut T>)
        ensures
            write.owner() == old(self).tag() && old(self).writing() ==> r is Some && *r->Some_0
                == old(self).value() && final(self).value() == *final(r->Some_0)
                && final(self).tag() == old(self).tag() && final(self).writing()
                && final(self).readers() == 0,
            !(write.owner() == old(self).tag() && old(self).writing()) ==> r is None
                && final(self).same_state(old(self)),
            final(self).wf(),
    {
        proof { use_type_invariant(&self.state); }
        if write.owner == self.tag {
            match self.state {
                State::Writing => Some(&mut self.data),
                _ => None,
            }
        } else {
            None
        }
    }
}

/// Law: handing back a read token that was just handed out gives back the
/// access state the value had: `s1` is `s0` after `read` gave `tok`, and `s2`
/// is `s1` after `consume_read(tok)`.
pub proof fn lemma_read_round_trip<T>(s0: DataState<T>, s1: DataState<T>, s2: DataState<T>, tok: ReadDataState<T>)
    requires
        s0.wf(),
        !s0.writing(),
        tok.owner() == s0.tag(),
        s1.readers() == s0.readers() + 1,
        !s1.writing(),
        s1.value() == s0.value(),
        s1.tag() == s0.tag(),
        s2.readers() == s1.readers() - 1,
        !s2.writing(),
        s2.value() == s1.value(),
        s2.tag() == s1.tag(),
    ensures
        s2.same_state(&s0),
{
}

/// Law: handing back the write token that was just handed out leaves the
/// value free again: `s1` is `s0` after `write`, `s2` is `s1` after
/// `consume_write`.
pub proof fn lemma_write_round_trip<T>(s0: DataState<T>, s1: DataState<T>, s2: DataState<T>)
    requires
        s0.wf(),
        !s0.writing(),
        s0.readers() == 0,
        s1.writing(),
        s1.readers() == 0,
        s1.value() == s0.value(),
        s1.tag() == s0.tag(),
        !s2.writing(),
        s2.readers() == 0,
        s2.value() == s1.value(),
        s2.tag() == s1.tag(),
    ensures
        s2.same_state(&s0),
{
}

} // verus!
