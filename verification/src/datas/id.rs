//! The identifiers by which the user traces what it asked for.
use vstd::prelude::*;

verus! {

/// A trace identifier.
#[derive(Debug, Clone, Copy, PartialEq, Eq, Structural)]
pub struct Id(pub u32);

/// The counter that fresh trace identifiers come from: `0`, `1`, `2`, … in
/// turn, starting again at `0` after `u32::MAX`.
pub struct IdCounter {
    next: u32,
    wrapped: bool,
}

impl IdCounter {
    /// The identifier that the next call of `fresh` hands out.
    pub closed spec fn spec_next(&self) -> u32 {
        self.next
    }

    /// Whether the counter has gone past `u32::MAX` and started again.
    pub closed spec fn spec_wrapped(&self) -> bool {
        self.wrapped
    }

    /// The identifiers handed out so far: those below the next one, or
    /// every `u32` once the counter has started again.
    pub open spec fn spec_issued(&self) -> Set<u32> {
        if self.spec_wrapped() {
            Set::new(|x: u32| true)
        } else {
            Set::new(|x: u32| x < self.spec_next())
        }
    }

    /// Whether `after` is this counter after it handed out one identifier.
    pub open spec fn spec_advanced_to(&self, after: IdCounter) -> bool {
        &&& after.spec_next() == (if self.spec_next() == u32::MAX {
            0
        } else {
            (self.spec_next() + 1) as u32
        })
        &&& after.spec_wrapped() == (self.spec_wrapped() || self.spec_next() == u32::MAX)
        &&& after.spec_issued() == self.spec_issued().insert(self.spec_next())
    }

    /// A counter that has handed out nothing yet.
    pub fn new() -> (r: Self)
        ensures
            r.spec_next() == 0,
            !r.spec_wrapped(),
            r.spec_issued() == Set::<u32>::empty(),
    {
        let r = IdCounter { next: 0, wrapped: false };
        assert(r.spec_issued() =~= Set::<u32>::empty());
        r
    }

    /// Hands out the next identifier. Until the counter starts again, it is
    /// one that was never handed out before.
    pub fn fresh(&mut self) -> (r: Id)
        ensures
            r.0 == old(self).spec_next(),
            old(self).spec_advanced_to(*final(self)),
            !old(self).spec_wrapped() ==> !old(self).spec_issued().contains(r.0),
    {
        let id = self.next;
        if self.next == u32::MAX {
            self.next = 0;
            self.wrapped = true;
        } else {
            self.next = self.next + 1;
        }
        assert(self.spec_issued() =~= old(self).spec_issued().insert(id));
        Id(id)
    }
}

/// Two identifiers handed out one after the other by the same counter
/// differ, as long as the counter has not started again.
pub proof fn lemma_fresh_ids_differ(before: IdCounter, between: IdCounter, a: Id, b: Id)
    requires
        !between.spec_wrapped(),
        before.spec_advanced_to(between),
        a.0 == before.spec_next(),
        b.0 == between.spec_next(),
    ensures
        a != b,
{
    assert(between.spec_issued().contains(a.0));
}

} // verus!
