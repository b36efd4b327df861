//! Closures passed by generic parameter: each closure is its own type.

use vstd::prelude::*;

verus! {

/// Calls `f` with five.
pub fn bar(f: impl Fn(i32) -> i32) -> (r: i32)
    requires
        f.requires((5i32,)),
    ensures
        f.ensures((5i32,), r),
{
    f(5)
}

/// Hands two closures that add `b` to `bar`, then returns a third that adds
/// `b` and outlives the call.
pub fn foo(b: i32) -> (r: impl Fn(i32) -> i32)
    requires
        b <= i32::MAX - 5,
    ensures
        forall|a: i32| i32::MIN <= a + b <= i32::MAX ==> r.requires((a,)),
        forall|a: i32, v: i32| r.ensures((a,), v) ==> v == a + b,
{
    let f1 = |a: i32| -> (v: i32)
        requires
            i32::MIN <= a + b <= i32::MAX,
        ensures
            v == a + b,
        { a + b };
    let f2 = |a: i32| -> (v: i32)
        requires
            i32::MIN <= a + b <= i32::MAX,
        ensures
            v == a + b,
        { a + b };
    let r1 = bar(f1);
    let r2 = bar(f2);
    assert(r1 == 5 + b && r2 == 5 + b);
    let f3 = move |a: i32| -> (v: i32)
        requires
            i32::MIN <= a + b <= i32::MAX,
        ensures
            v == a + b,
        { a + b };
    f3
}

} // verus!
