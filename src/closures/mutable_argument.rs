//! Closures that take the state they change as a `&mut` argument instead of
//! capturing it.

use vstd::prelude::*;

verus! {

/// Calls `f` with five.
pub fn my_foreign_function(f: impl Fn(i32) -> i32) -> (r: i32)
    requires
        f.requires((5i32,)),
    ensures
        f.ensures((5i32,), r),
{
    f(5)
}

/// Calls `f1` and then `f2` with five and `a`, and returns the sum of what
/// they returned.
pub fn qux(
    f1: impl Fn(i32, &mut i32) -> i32,
    f2: impl Fn(i32, &mut i32) -> i32,
    a: &mut i32,
) -> (r: i32)
    requires
        forall|x: i32, y: &mut i32| f1.requires((x, y)),
        forall|x: i32, y: &mut i32| f2.requires((x, y)),
        forall|x: i32, y: &mut i32, v: i32| f1.ensures((x, y), v) ==> v == x,
        forall|x: i32, y: &mut i32, v: i32| f2.ensures((x, y), v) ==> v == x,
    ensures
        r == 10,
{
    let x = f1(5, a);
    let y = f2(5, a);
    x + y
}

/// Builds two closures that store their first argument through the second,
/// hands both to `qux`, and returns the second.
pub fn baz(a: &mut i32) -> (r: impl Fn(i32, &mut i32) -> i32)
    ensures
        forall|x: i32, y: &mut i32| r.requires((x, y)),
        forall|x: i32, y: &mut i32, v: i32| r.ensures((x, y), v) ==> v == x,
{
    let f1 = |b: i32, a: &mut i32| -> (v: i32)
        ensures
            v == b,
        {
            *a = b;
            *a
        };
    let f2 = |b: i32, a: &mut i32| -> (v: i32)
        ensures
            v == b,
        {
            *a = b;
            *a
        };
    let _ = qux(f1, f2, a);
    f2
}

/// Calls `my_foreign_function` with a closure that adds one to `b`.
pub fn bar(b: i32) -> (r: i32)
    requires
        b < i32::MAX,
    ensures
        r == b + 1,
{
    let f = |x: i32| -> (v: i32)
        requires
            b < i32::MAX,
        ensures
            v == b + 1,
        { b + 1 };
    my_foreign_function(f)
}

} // verus!
