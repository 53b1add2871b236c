//! Identity allocator: hands out notification ids.
//!
//! Zero is reserved on the wire as the "allocate a new id" sentinel, so the
//! counter lives in `1..=u32::MAX` and wraps from `u32::MAX` back to `1`.

use vstd::prelude::*;

verus! {

/// The id that follows `id` in the cyclic order `1, 2, ..., u32::MAX, 1, ...`.
pub open spec fn successor(id: u32) -> u32 {
    if id == u32::MAX {
        1u32
    } else {
        (id + 1) as u32
    }
}

/// The id that a call with the given `replaces_id` receives when the counter
/// stands at `counter`.
pub open spec fn resolved_id(counter: u32, replaces_id: u32) -> u32 {
    if replaces_id == 0 {
        counter
    } else {
        replaces_id
    }
}

/// The counter after a call with the given `replaces_id`.
pub open spec fn counter_after(counter: u32, replaces_id: u32) -> u32 {
    if replaces_id == 0 {
        successor(counter)
    } else {
        counter
    }
}

/// Owner of the notification id counter.
pub struct IdAllocator {
    next_id: u32,
}

impl IdAllocator {
    /// The id that the next fresh allocation returns.
    pub closed spec fn next_id(&self) -> u32 {
        self.next_id
    }

    #[verifier::type_invariant]
    spec fn nonzero(&self) -> bool {
        self.next_id != 0
    }

    /// An allocator whose first fresh id is `1`.
    pub fn new() -> (allocator: Self)
        ensures
            allocator.next_id() == 1,
    {
        IdAllocator { next_id: 1 }
    }

    /// An allocator whose first fresh id is `first`. Zero is no id, so
    /// there is none that starts there.
    pub fn starting_at(first: u32) -> (allocator: Option<Self>)
        ensures
            first == 0 <==> allocator is None,
            allocator matches Some(a) ==> a.next_id() == first,
    {
        if first == 0 {
            None
        } else {
            Some(IdAllocator { next_id: first })
        }
    }

    /// The id that the next fresh allocation returns.
    pub fn peek(&self) -> (id: u32)
        ensures
            id == self.next_id(),
            id != 0,
    {
        proof {
            use_type_invariant(self);
        }
        self.next_id
    }

    /// Resolves the id of one call: a fresh id when `replaces_id` is zero,
    /// and `replaces_id` itself otherwise, in which case the counter stays.
    pub fn allocate_or_reuse(&mut self, replaces_id: u32) -> (id: u32)
        ensures
            id == resolved_id(old(self).next_id(), replaces_id),
            final(self).next_id() == counter_after(old(self).next_id(), replaces_id),
            id != 0,
            final(self).next_id() != 0,
    {
        proof {
            use_type_invariant(&*self);
        }
        if replaces_id == 0 {
            let current: u32 = self.next_id;
            if current == u32::MAX {
                self.next_id = 1;
            } else {
                self.next_id = current + 1;
            }
            current
        } else {
            replaces_id
        }
    }
}

} // verus!
