use vstd::prelude::*;

verus! {

/// A freshly seeded `std::hash::RandomState` (`RandomState::new`).
/// Its keys are random: nothing is stated of it.
#[verifier::external_body]
fn new_random_state() -> (s: std::hash::RandomState) {
    std::hash::RandomState::new()
}

/// `BuildHasher::hash_one` of the byte `0` under the given random state.
/// The result depends on the random keys of `s`: nothing is stated of it.
#[verifier::external_body]
fn hash_zero(s: &std::hash::RandomState) -> (h: u64) {
    std::hash::BuildHasher::hash_one(s, 0u8)
}

/// A random 64-bit tag that identifies one access-tracked value, so that a
/// token handed out by one value is refused by another.
pub fn fresh_tag() -> u64 {
    let s = new_random_state();
    hash_zero(&s)
}

/// Hands out the tags 0, 1, 2, ... in turn: values tagged from one source
/// never share a tag, so each refuses the tokens of the others.
#[derive(Debug)]
pub struct TagSource {
    next: u64,
}

impl TagSource {
    /// The tag to be handed out next.
    pub closed spec fn next_tag(&self) -> u64 {
        self.next
    }

    /// A source whose first tag is 0.
    pub fn new() -> (r: Self)
        ensures
            r.next_tag() == 0,
    {
        TagSource { next: 0 }
    }

    /// Whether another tag can be handed out.
    pub fn can_draw(&self) -> (r: bool)
        ensures
            r == (self.next_tag() < u64::MAX),
    {
        self.next < u64::MAX
    }

    /// Hands out the next tag.
    pub fn draw(&mut self) -> (t: u64)
        requires
            old(self).next_tag() < u64::MAX,
        ensures
            t == old(self).next_tag(),
            final(self).next_tag() == old(self).next_tag() + 1,
    {
        let t = self.next;
        self.next = self.next + 1;
        t
    }
}

/// Law: a source never hands out the same tag twice. `first` was handed out
/// when the source stood at `at`, `second` when it stood at `later`, after at
/// least one more draw.
pub proof fn lemma_drawn_tags_distinct(at: TagSource, first: u64, later: TagSource, second: u64)
    requires
        first == at.next_tag(),
        at.next_tag() < later.next_tag(),
        second == later.next_tag(),
    ensures
        first != second,
{
}

} // verus!
