//! Structures whose storage is carved from a region. Each one borrows the
//! region, so none of them can outlive the generation it was built in.

use vstd::prelude::*;
use crate::bump::{
    bump_string_chars, bump_string_new_in, bump_string_pop, bump_string_push,
    bump_vec_items, bump_vec_len, bump_vec_new_in, bump_vec_pop, bump_vec_push,
};
use crate::region::Region;

verus! {

/// A singly linked list whose nodes live in a region.
pub enum List<'a> {
    Cons(i32, &'a List<'a>),
    Nil,
}

impl<'a> List<'a> {
    /// The values from the head to the tail.
    pub open spec fn values(&self) -> Seq<int>
        decreases self,
    {
        match self {
            List::Cons(v, tail) => seq![*v as int] + tail.values(),
            List::Nil => Seq::empty(),
        }
    }

    /// The values from the tail back to the head.
    pub open spec fn deepest_first(&self) -> Seq<int>
        decreases self,
    {
        match self {
            List::Cons(v, tail) => tail.deepest_first().push(*v as int),
            List::Nil => Seq::empty(),
        }
    }

    /// Prepends a node holding `value`; the old list moves into the region
    /// and becomes the new node's tail.
    pub fn push(self, region: &'a Region, value: i32) -> (r: List<'a>)
        ensures
            r.values() == seq![value as int] + self.values(),
            r.deepest_first() == self.deepest_first().push(value as int),
    {
        List::Cons(value, region.allocate(self))
    }
}

/// A growable array of `i32` whose storage comes from a region.
pub struct ScopedArray<'a> {
    items: bumpalo::collections::Vec<'a, i32>,
}

impl<'a> View for ScopedArray<'a> {
    type V = Seq<i32>;

    closed spec fn view(&self) -> Seq<i32> {
        bump_vec_items(self.items)
    }
}

impl<'a> ScopedArray<'a> {
    /// An empty array in `region`; nothing left in the region from earlier
    /// shows through.
    pub fn new_in(region: &'a Region) -> (r: ScopedArray<'a>)
        ensures
            r@ == Seq::<i32>::empty(),
    {
        ScopedArray { items: bump_vec_new_in(region.arena()) }
    }

    /// Appends `value` at the end.
    pub fn push(&mut self, value: i32)
        ensures
            final(self)@ == old(self)@.push(value),
    {
        bump_vec_push(&mut self.items, value)
    }

    /// Removes and returns the last element; `None` when empty.
    pub fn pop(&mut self) -> (r: Option<i32>)
        ensures
            old(self)@.len() == 0 ==> r is None && final(self)@ == old(self)@,
            old(self)@.len() > 0 ==> r == Some(old(self)@.last()) && final(self)@ == old(
                self,
            )@.drop_last(),
    {
        bump_vec_pop(&mut self.items)
    }

    /// The number of elements.
    pub fn len(&self) -> (r: usize)
        ensures
            r == self@.len(),
    {
        bump_vec_len(&self.items)
    }
}

/// A growable character buffer whose storage comes from a region.
pub struct ScopedBuffer<'a> {
    text: bumpalo::collections::String<'a>,
}

impl<'a> View for ScopedBuffer<'a> {
    type V = Seq<char>;

    closed spec fn view(&self) -> Seq<char> {
        bump_string_chars(self.text)
    }
}

impl<'a> ScopedBuffer<'a> {
    /// An empty buffer in `region`; nothing left in the region from earlier
    /// shows through.
    pub fn new_in(region: &'a Region) -> (r: ScopedBuffer<'a>)
        ensures
            r@ == Seq::<char>::empty(),
    {
        ScopedBuffer { text: bump_string_new_in(region.arena()) }
    }

    /// Appends `ch` at the end.
    pub fn push(&mut self, ch: char)
        ensures
            final(self)@ == old(self)@.push(ch),
    {
        bump_string_push(&mut self.text, ch)
    }

    /// Removes and returns the last character; `None` when empty.
    pub fn pop(&mut self) -> (r: Option<char>)
        ensures
            old(self)@.len() == 0 ==> r is None && final(self)@ == old(self)@,
            old(self)@.len() > 0 ==> r == Some(old(self)@.last()) && final(self)@ == old(
                self,
            )@.drop_last(),
    {
        bump_string_pop(&mut self.text)
    }
}

} // verus!
