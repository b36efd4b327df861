//! Closures as records of their captured values, called through a trait of
//! the library's own.

use vstd::prelude::*;

verus! {

/// A closure over `i32` whose result is stated by `output`.
pub trait Closure {
    /// The value that a call with `a` returns.
    spec fn output(&self, a: int) -> int;

    fn call(&self, a: i32) -> (r: i32)
        requires
            i32::MIN <= self.output(a as int) <= i32::MAX,
        ensures
            r == self.output(a as int);
}

/// The environment of `|a| a + b`.
#[derive(Clone, Copy)]
pub struct Environment1 {
    pub b: i32,
}

/// The environment of `|a| a * b`.
#[derive(Clone, Copy)]
pub struct Environment2 {
    pub b: i32,
}

impl Closure for Environment1 {
    open spec fn output(&self, a: int) -> int {
        a + self.b
    }

    fn call(&self, a: i32) -> (r: i32) {
        a + self.b
    }
}

impl Closure for Environment2 {
    open spec fn output(&self, a: int) -> int {
        a * self.b
    }

    fn call(&self, a: i32) -> (r: i32) {
        a * self.b
    }
}

/// Calls `f` with five.
pub fn bar(f: impl Closure) -> (r: i32)
    requires
        i32::MIN <= f.output(5) <= i32::MAX,
    ensures
        r == f.output(5),
{
    f.call(5)
}

/// Hands the adding closure over `b` to `bar` and returns the multiplying one.
pub fn foo(b: i32) -> (r: Environment2)
    requires
        b <= i32::MAX - 5,
    ensures
        r.b == b,
{
    let f1 = Environment1 { b };
    let f2 = Environment2 { b };
    let _ = bar(f1);
    f2
}

} // verus!
