//! Closures as a shared record of their environment, paired by type with the
//! plain function that they apply.

use std::rc::Rc;
use vstd::prelude::*;

verus! {

/// The captured environment of a closure that applies `f1`.
pub struct Closure1 {
    pub env: (i32,),
}

/// The captured environment of a closure that applies `f2`.
pub struct Closure2 {
    pub env: (i32,),
}

/// The body of the adding closure: `a` plus the captured value.
pub fn f1(a: i32, env: (i32,)) -> (r: i32)
    requires
        i32::MIN <= a + env.0 <= i32::MAX,
    ensures
        r == a + env.0,
{
    a + env.0
}

/// The body of the multiplying closure: `a` times the captured value.
pub fn f2(a: i32, env: (i32,)) -> (r: i32)
    requires
        i32::MIN <= a * env.0 <= i32::MAX,
    ensures
        r == a * env.0,
{
    a * env.0
}

/// Applies the adding closure `f` to five.
pub fn bar_f1(f: Rc<Closure1>) -> (r: i32)
    requires
        i32::MIN <= 5 + f.env.0 <= i32::MAX,
    ensures
        r == 5 + f.env.0,
{
    f1(5, f.env)
}

/// Applies the multiplying closure `f` to five.
pub fn bar_f2(f: Rc<Closure2>) -> (r: i32)
    requires
        i32::MIN <= 5 * f.env.0 <= i32::MAX,
    ensures
        r == 5 * f.env.0,
{
    f2(5, f.env)
}

/// Builds both closures over `b`, applies them, and returns the adding one.
pub fn foo(b: i32) -> (r: Rc<Closure1>)
    requires
        i32::MIN <= 5 * b <= i32::MAX,
        b <= i32::MAX - 5,
    ensures
        r.env.0 == b,
{
    let c1: Rc<Closure1> = Rc::new(Closure1 { env: (b,) });
    let c2: Rc<Closure2> = Rc::new(Closure2 { env: (b,) });
    let _ = bar_f1(c1.clone());
    let _ = bar_f1(c1.clone());
    let _ = bar_f2(c2.clone());
    c1
}

} // verus!
