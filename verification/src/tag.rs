//! Tag identifiers and the counter that hands them out.

use vstd::prelude::*;

verus! {

/// Identifier of a tag.
#[derive(Clone, Copy, Debug, PartialEq, Eq, Structural)]
pub struct TagId(pub u32);

/// Hands out tag identifiers in increasing order, starting at zero. After
/// `u32::MAX` it starts over at zero.
#[derive(Debug)]
pub struct TagIdAllocator {
    next: u32,
}

impl TagIdAllocator {
    /// The identifier that the next allocation returns.
    pub closed spec fn upcoming(&self) -> u32 {
        self.next
    }

    /// An allocator in its initial state: the first identifier is zero.
    pub fn new() -> (r: Self)
        ensures
            r.upcoming() == 0,
    {
        TagIdAllocator { next: 0 }
    }

    /// Allocates an identifier.
    pub fn next(&mut self) -> (r: TagId)
        ensures
            r.0 == old(self).upcoming(),
            final(self).upcoming() == if old(self).upcoming() == u32::MAX {
                0
            } else {
                (old(self).upcoming() + 1) as u32
            },
    {
        let id = self.next;
        self.next = if id == u32::MAX { 0 } else { id + 1 };
        TagId(id)
    }

    /// Puts the allocator back into its initial state.
    pub fn reset(&mut self)
        ensures
            final(self).upcoming() == 0,
    {
        self.next = 0;
    }
}

} // verus!
