//! The items of `bumpalo` that the library relies on, with their contracts.

use vstd::prelude::*;

verus! {

#[verifier::external_type_specification]
#[verifier::external_body]
pub struct ExBump<const MIN_ALIGN: usize>(bumpalo::Bump<MIN_ALIGN>);

#[verifier::external_type_specification]
#[verifier::external_body]
#[verifier::reject_recursive_types(T)]
pub struct ExBumpVec<'bump, T>(bumpalo::collections::Vec<'bump, T>);

#[verifier::external_type_specification]
#[verifier::external_body]
pub struct ExBumpString<'bump>(bumpalo::collections::String<'bump>);

/// What an arena-backed vector of `i32` holds, first element first.
pub uninterp spec fn bump_vec_items(v: bumpalo::collections::Vec<'_, i32>) -> Seq<i32>;

/// The characters that an arena-backed string holds, first character first.
pub uninterp spec fn bump_string_chars(s: bumpalo::collections::String<'_>) -> Seq<char>;

/// Relies on `bumpalo::Bump::with_capacity`: a fresh arena with room for at
/// least `capacity` bytes in its first chunk.
#[verifier::external_body]
pub(crate) fn bump_with_capacity(capacity: usize) -> (r: bumpalo::Bump) {
    bumpalo::Bump::with_capacity(capacity)
}

/// Relies on `bumpalo::Bump::reset`: every allocation is given back at once.
/// The borrow of the arena for `&mut` guarantees that nothing allocated in it
/// is still reachable.
#[verifier::external_body]
pub(crate) fn bump_reset(bump: &mut bumpalo::Bump) {
    bump.reset()
}

/// Relies on `bumpalo::Bump::alloc`: moves `value` into the arena and hands
/// back a reference to it, valid as long as the arena is borrowed.
#[verifier::external_body]
pub(crate) fn bump_alloc<'a, T>(bump: &'a bumpalo::Bump, value: T) -> (r: &'a T)
    ensures
        *r == value,
{
    bump.alloc(value)
}

/// Relies on `bumpalo::collections::Vec::new_in`: an empty vector whose
/// storage comes from the arena.
#[verifier::external_body]
pub(crate) fn bump_vec_new_in<'a>(bump: &'a bumpalo::Bump) -> (r: bumpalo::collections::Vec<'a, i32>)
    ensures
        bump_vec_items(r) == Seq::<i32>::empty(),
{
    bumpalo::collections::Vec::new_in(bump)
}

/// Relies on `bumpalo::collections::Vec::push`: appends `value` at the end.
#[verifier::external_body]
pub(crate) fn bump_vec_push(v: &mut bumpalo::collections::Vec<'_, i32>, value: i32)
    ensures
        bump_vec_items(*final(v)) == bump_vec_items(*old(v)).push(value),
{
    v.push(value)
}

/// Relies on `bumpalo::collections::Vec::pop`: removes and returns the last
/// element, or returns `None` and leaves an empty vector as it is.
#[verifier::external_body]
pub(crate) fn bump_vec_pop(v: &mut bumpalo::collections::Vec<'_, i32>) -> (r: Option<i32>)
    ensures
        bump_vec_items(*old(v)).len() == 0 ==> r is None && bump_vec_items(*final(v))
            == bump_vec_items(*old(v)),
        bump_vec_items(*old(v)).len() > 0 ==> r == Some(bump_vec_items(*old(v)).last())
            && bump_vec_items(*final(v)) == bump_vec_items(*old(v)).drop_last(),
{
    v.pop()
}

/// Relies on `bumpalo::collections::Vec::len`: the number of elements.
#[verifier::external_body]
pub(crate) fn bump_vec_len(v: &bumpalo::collections::Vec<'_, i32>) -> (r: usize)
    ensures
        r == bump_vec_items(*v).len(),
{
    v.len()
}

/// Relies on `bumpalo::collections::String::new_in`: an empty string whose
/// storage comes from the arena.
#[verifier::external_body]
pub(crate) fn bump_string_new_in<'a>(bump: &'a bumpalo::Bump) -> (r: bumpalo::collections::String<'a>)
    ensures
        bump_string_chars(r) == Seq::<char>::empty(),
{
    bumpalo::collections::String::new_in(bump)
}

/// Relies on `bumpalo::collections::String::push`: appends `ch` at the end.
#[verifier::external_body]
pub(crate) fn bump_string_push(s: &mut bumpalo::collections::String<'_>, ch: char)
    ensures
        bump_string_chars(*final(s)) == bump_string_chars(*old(s)).push(ch),
{
    s.push(ch)
}

/// Relies on `bumpalo::collections::String::pop`: removes and returns the
/// last character, or returns `None` and leaves an empty string as it is.
#[verifier::external_body]
pub(crate) fn bump_string_pop(s: &mut bumpalo::collections::String<'_>) -> (r: Option<char>)
    ensures
        bump_string_chars(*old(s)).len() == 0 ==> r is None && bump_string_chars(*final(s))
            == bump_string_chars(*old(s)),
        bump_string_chars(*old(s)).len() > 0 ==> r == Some(bump_string_chars(*old(s)).last())
            && bump_string_chars(*final(s)) == bump_string_chars(*old(s)).drop_last(),
{
    s.pop()
}

} // verus!
