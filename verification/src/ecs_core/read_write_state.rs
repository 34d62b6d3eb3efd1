use vstd::prelude::*;

use crate::identity::{fresh_tag, TagSource};

verus! {

/// Why a read or a write access was refused.
#[derive(Debug, Clone, Copy, PartialEq, Eq, Structural)]
pub enum RwStateAccessError {
    NotAvailable,
}

/// Why handing back an access token was refused.
#[derive(Debug, Clone, Copy, PartialEq, Eq, Structural)]
pub enum RwStateConsumeError {
    /// The token was handed out by another value.
    WrongValue,
    /// The value is not in the access state that the token stands for.
    WrongState,
}

/// The access state of a value: free, read by some readers, or written.
#[derive(Debug)]
enum State {
    Ready,
    Read(isize),
    Write,
}

impl State {
    /// Readers are counted from one up while any read token is out.
    #[verifier::type_invariant]
    spec fn counted(self) -> bool {
        match self {
            State::Read(i) => i >= 1,
            _ => true,
        }
    }
}

/// A value guarded by a reader/writer discipline that is checked at run time:
/// any number of read tokens, or one write token, are out at a time, and each
/// token is handed back with `consume_read` / `consume_write`.
pub struct RwState<T> {
    data: T,
    state: State,
    tag: u64,
}

/// A token for reading the value of the `RwState` that handed it out.
#[derive(Debug)]
pub struct RwReadState<T> {
    owner: u64,
    marker: core::marker::PhantomData<T>,
}

/// A token for writing the value of the `RwState` that handed it out.
#[derive(Debug)]
pub struct RwWriteState<T> {
    owner: u64,
    marker: core::marker::PhantomData<T>,
}

impl<T> RwReadState<T> {
    /// A read token that names the value tagged `owner`.
    pub fn new(owner: u64) -> (r: Self)
        ensures
            r.owner() == owner,
    {
        RwReadState { owner, marker: core::marker::PhantomData }
    }

    /// The tag of the value that this token was handed out by.
    pub closed spec fn owner(&self) -> u64 {
        self.owner
    }
}

impl<T> RwWriteState<T> {
    /// A write token that names the value tagged `owner`.
    pub fn new(owner: u64) -> (r: Self)
        ensures
            r.owner() == owner,
    {
        RwWriteState { owner, marker: core::marker::PhantomData }
    }

    /// The tag of the value that this token was handed out by.
    pub closed spec fn owner(&self) -> u64 {
        self.owner
    }
}

impl<T> RwState<T> {
    /// Readers are counted from one up while any read token is out.
    pub closed spec fn wf(&self) -> bool {
        match self.state {
            State::Read(i) => i >= 1,
            _ => true,
        }
    }

    /// The guarded value.
    pub closed spec fn value(&self) -> T {
        self.data
    }

    /// The tag that the tokens of this value carry.
    pub closed spec fn tag(&self) -> u64 {
        self.tag
    }

    /// How many read tokens are out, so that a caller can tell whether one more
    /// can be counted.
    pub fn reader_count(&self) -> (r: isize)
        ensures
            r == self.readers(),
            self.wf(),
    {
        proof { use_type_invariant(&self.state); }
        match &self.state {
            State::Read(i) => *i,
            _ => 0,
        }
    }

    /// How many read tokens are out (0 when none is).
    pub closed spec fn readers(&self) -> int {
        match self.state {
            State::Read(i) => i as int,
            _ => 0,
        }
    }

    /// Whether the write token is out.
    pub closed spec fn writing(&self) -> bool {
        self.state is Write
    }

    /// The same guarded value, tag and access state.
    pub open spec fn same_state(&self, other: &Self) -> bool {
        &&& self.value() == other.value()
        &&& self.tag() == other.tag()
        &&& self.readers() == other.readers()
        &&& self.writing() == other.writing()
    }

    /// A well-formed value is never read and written at once, and its reader
    /// count is never negative.
    pub proof fn lemma_exclusive(&self)
        requires
            self.wf(),
        ensures
            self.readers() >= 0,
            self.writing() ==> self.readers() == 0,
    {
    }

    /// A value that no token has been handed out for yet, with a fresh tag.
    pub fn new(data: T) -> (r: Self)
        ensures
            r.wf(),
            r.value() == data,
            r.readers() == 0,
            !r.writing(),
    {
        RwState { data, state: State::Ready, tag: fresh_tag() }
    }

    /// A value that no token has been handed out for yet, tagged with the
    /// next tag of `tags`: it refuses the tokens of every other value tagged
    /// from the same source.
    pub fn with_tags(data: T, tags: &mut TagSource) -> (r: Self)
        requires
            old(tags).next_tag() < u64::MAX,
        ensures
            r.wf(),
            r.value() == data,
            r.readers() == 0,
            !r.writing(),
            r.tag() == old(tags).next_tag(),
            final(tags).next_tag() == old(tags).next_tag() + 1,
    {
        RwState { data, state: State::Ready, tag: tags.draw() }
    }

    /// Hands out a read token, unless the write token is out.
    pub fn read(&mut self) -> (r: Result<RwReadState<T>, RwStateAccessError>)
        requires
            old(self).readers() < isize::MAX,
        ensures
            old(self).writing() ==> r == Err::<RwReadState<T>, _>(RwStateAccessError::NotAvailable)
                && final(self).same_state(old(self)),
            !old(self).writing() ==> r is Ok && r->Ok_0.owner() == old(self).tag()
                && final(self).readers() == old(self).readers() + 1 && !final(self).writing(),
            final(self).value() == old(self).value(),
            final(self).tag() == old(self).tag(),
            final(self).wf(),
    {
        proof { use_type_invariant(&self.state); }
        match self.state {
            State::Read(i) => {
                self.state = State::Read(i + 1);
                Ok(RwReadState::new(self.tag))
            },
            State::Ready => {
                self.state = State::Read(1);
                Ok(RwReadState::new(self.tag))
            },
            State::Write => Err(RwStateAccessError::NotAvailable),
        }
    }

    /// Hands out the write token, unless a read or the write token is out.
    pub fn write(&mut self) -> (r: Result<RwWriteState<T>, RwStateAccessError>)
        ensures
            (old(self).writing() || old(self).readers() != 0) ==> r == Err::<
                RwWriteState<T>,
                _,
            >(RwStateAccessError::NotAvailable) && final(self).same_state(old(self)),
            !(old(self).writing() || old(self).readers() != 0) ==> r is Ok && r->Ok_0.owner()
                == old(self).tag() && final(self).writing() && final(self).readers() == 0,
            final(self).value() == old(self).value(),
            final(self).tag() == old(self).tag(),
            final(self).wf(),
    {
        proof { use_type_invariant(&self.state); }
        match self.state {
            State::Ready => {
                self.state = State::Write;
                Ok(RwWriteState::new(self.tag))
            },
            _ => Err(RwStateAccessError::NotAvailable),
        }
    }

    /// Takes back a read token: the reader count drops by one.
    pub fn consume_read(&mut self, read: RwReadState<T>) -> (r: Result<(), RwStateConsumeError>)
        ensures
            read.owner() != old(self).tag() ==> r == Err::<(), _>(RwStateConsumeError::WrongValue),
            read.owner() == old(self).tag() && old(self).readers() == 0 ==> r == Err::<(), _>(
                RwStateConsumeError::WrongState,
            ),
            r is Err ==> final(self).same_state(old(self)),
            read.owner() == old(self).tag() && old(self).readers() != 0 ==> r is Ok
                && final(self).readers() == old(self).readers() - 1 && !final(self).writing(),
            final(self).value() == old(self).value(),
            final(self).tag() == old(self).tag(),
            final(self).wf(),
    {
        proof { use_type_invariant(&self.state); }
        if read.owner != self.tag {
            return Err(RwStateConsumeError::WrongValue);
        }
        match self.state {
            State::Read(i) => {
                if i >= 2 {
                    self.state = State::Read(i - 1);
                } else {
                    self.state = State::Ready;
                }
                Ok(())
            },
            _ => Err(RwStateConsumeError::WrongState),
        }
    }

    /// Takes back the write token: the value is free again.
    pub fn consume_write(&mut self, write: RwWriteState<T>) -> (r: Result<(), RwStateConsumeError>)
        ensures
            write.owner() != old(self).tag() ==> r == Err::<(), _>(RwStateConsumeError::WrongValue),
            write.owner() == old(self).tag() && !old(self).writing() ==> r == Err::<(), _>(
                RwStateConsumeError::WrongState,
            ),
            r is Err ==> final(self).same_state(old(self)),
            write.owner() == old(self).tag() && old(self).writing() ==> r is Ok
                && !final(self).writing() && final(self).readers() == 0,
            final(self).value() == old(self).value(),
            final(self).tag() == old(self).tag(),
            final(self).wf(),
    {
        proof { use_type_invariant(&self.state); }
        if write.owner != self.tag {
            return Err(RwStateConsumeError::WrongValue);
        }
        match self.state {
            State::Write => {
                self.state = State::Ready;
                Ok(())
            },
            _ => Err(RwStateConsumeError::WrongState),
        }
    }

    /// The value, read through a read token of this value that is out.
    pub fn get(&self, read: &RwReadState<T>) -> (r: Option<&T>)
        ensures
            read.owner() == self.tag() && self.readers() != 0 ==> r == Some(&self.value()),
            !(read.owner() == self.tag() && self.readers() != 0) ==> r is None,
    {
        proof { use_type_invariant(&self.state); }
        if read.owner == self.tag {
            match self.state {
                State::Read(_) => Some(&self.data),
                _ => None,
            }
        } else {
            None
        }
    }

    /// The value, written through the write token of this value while it is out.
    pub fn get_mut(&mut self, write: &RwWriteState<T>) -> (r: Option<&mut T>)
        ensures
            write.owner() == old(self).tag() && old(self).writing() ==> r is Some && *r->Some_0
                == old(self).value() && final(self).value() == *final(r->Some_0)
                && final(self).tag() == old(self).tag() && final(self).writing()
                && final(self).readers() == 0,
            !(write.owner() == old(self).tag() && old(self).writing()) ==> r is None
                && final(self).same_state(old(self)),
            final(self).wf(),
    {
        proof { use_type_invariant(&self.state); }
        if write.owner == self.tag {
            match self.state {
                State::Write => Some(&mut self.data),
                _ => None,
            }
        } else {
            None
        }
    }
}

/// Law: handing back a read token that was just handed out gives back the
/// access state the value had: `s1` is `s0` after `read` gave `tok`, and `s2`
/// is `s1` after `consume_read(tok)`.
pub proof fn lemma_read_round_trip<T>(s0: RwState<T>, s1: RwState<T>, s2: RwState<T>, tok: RwReadState<T>)
    requires
        s0.wf(),
        !s0.writing(),
        tok.owner() == s0.tag(),
        s1.readers() == s0.readers() + 1,
        !s1.writing(),
        s1.value() == s0.value(),
        s1.tag() == s0.tag(),
        // consume_read on s1 with a token of s1 and a positive reader count
        s2.readers() == s1.readers() - 1,
        !s2.writing(),
        s2.value() == s1.value(),
        s2.tag() == s1.tag(),
    ensures
        s2.same_state(&s0),
{
}

} // verus!
