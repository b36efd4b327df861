//! The region allocator that one processor owns.

use vstd::prelude::*;
use crate::bump::{bump_alloc, bump_reset, bump_with_capacity};

verus! {

/// A growable bump region. Allocations live until the next rewind, which
/// takes the region by `&mut` and so cannot happen while any of them is
/// still borrowed.
pub struct Region {
    bump: bumpalo::Bump,
    generation: Ghost<nat>,
}

impl Region {
    /// How many rewinds the region has gone through: every allocation belongs
    /// to the generation in which it was made.
    pub closed spec fn generation(&self) -> nat {
        self.generation@
    }

    /// A region with room for `capacity` bytes before it first grows.
    pub fn with_capacity(capacity: usize) -> (r: Region)
        ensures
            r.generation() == 0,
    {
        Region { bump: bump_with_capacity(capacity), generation: Ghost(0) }
    }

    /// A region that allocates its first chunk on first use.
    pub fn new() -> (r: Region)
        ensures
            r.generation() == 0,
    {
        Region::with_capacity(0)
    }

    /// Gives back every allocation at once and starts a new generation.
    pub fn rewind(&mut self)
        ensures
            final(self).generation() == old(self).generation() + 1,
    {
        bump_reset(&mut self.bump);
        self.generation = Ghost(self.generation@ + 1);
    }

    /// Moves `value` into the region; the reference lives as long as the
    /// region is borrowed, and so no longer than the current generation.
    pub fn allocate<T>(&self, value: T) -> (r: &T)
        ensures
            *r == value,
    {
        bump_alloc(&self.bump, value)
    }

    /// The arena that allocations of the current generation come from.
    pub(crate) fn arena(&self) -> (r: &bumpalo::Bump) {
        &self.bump
    }
}

} // verus!
