//! The arithmetic that the demonstrations emit: sums, running sums, and the
//! value sequences that the structures are drained in.

use vstd::prelude::*;

verus! {

/// The largest count for which every emitted sum fits in an `i32`.
pub const MAX_COUNT: i32 = 65535;

/// The sum of a sequence of integers.
pub open spec fn seq_sum(s: Seq<int>) -> int
    decreases s.len(),
{
    if s.len() == 0 {
        0
    } else {
        seq_sum(s.drop_last()) + s.last()
    }
}

/// Element `i` is the sum of the first `i + 1` elements of `s`.
pub open spec fn running_sums(s: Seq<int>) -> Seq<int> {
    Seq::new(s.len(), |i: int| seq_sum(s.take(i + 1)))
}

/// `n - 1, n - 2, ..., 0`: the order in which a list or an array built from
/// `0..n` is drained.
pub open spec fn descending(n: nat) -> Seq<int> {
    Seq::new(n, |i: int| n - 1 - i)
}

/// `1, 2, ..., n`: the order in which the recursive list of `n` is summed.
pub open spec fn ascending_from_one(n: nat) -> Seq<int> {
    Seq::new(n, |i: int| i + 1)
}

/// The iteration count that an event's payload asks for: a count below one
/// means no iteration at all.
pub open spec fn count_of(payload: i32) -> nat {
    if payload <= 0 {
        0
    } else {
        payload as nat
    }
}

/// Appending a value extends the running sums by the new total.
pub proof fn lemma_running_sums_push(s: Seq<int>, v: int)
    ensures
        running_sums(s.push(v)) == running_sums(s).push(seq_sum(s) + v),
{
    let t = s.push(v);
    assert(t.drop_last() =~= s);
    assert forall|i: int| 0 <= i < s.len() implies #[trigger] t.take(i + 1) == s.take(i + 1) by {
        assert(t.take(i + 1) =~= s.take(i + 1));
    }
    assert(t.take(t.len() as int) =~= t);
    assert(running_sums(t) =~= running_sums(s).push(seq_sum(s) + v));
}

/// Taking one more element adds that element to the sum.
pub proof fn lemma_sum_take_next(s: Seq<int>, k: int)
    requires
        0 <= k < s.len(),
    ensures
        seq_sum(s.take(k + 1)) == seq_sum(s.take(k)) + s[k],
{
    assert(s.take(k + 1).drop_last() =~= s.take(k));
}

/// Twice the sum of the first `k` values of `descending(n)`.
pub proof fn lemma_descending_prefix_sum(n: nat, k: nat)
    requires
        k <= n,
    ensures
        2 * seq_sum(descending(n).take(k as int)) == k * (2 * n - k - 1),
    decreases k,
{
    let d = descending(n);
    if k == 0 {
        assert(d.take(0) =~= Seq::<int>::empty());
    } else {
        lemma_descending_prefix_sum(n, (k - 1) as nat);
        lemma_sum_take_next(d, k - 1);
        let a = k as int;
        let m = n as int;
        assert((a - 1) * (2 * m - (a - 1) - 1) + 2 * (m - 1 - (a - 1)) == a * (2 * m - a - 1))
            by (nonlinear_arith);
    }
}

/// Every prefix sum of `descending(n)` fits in an `i32` when `n` is at most
/// `MAX_COUNT`, and none is negative.
pub proof fn lemma_descending_prefix_bounded(n: nat, k: nat)
    requires
        k <= n <= MAX_COUNT,
    ensures
        0 <= seq_sum(descending(n).take(k as int)) <= i32::MAX,
{
    lemma_descending_prefix_sum(n, k);
    let a = k as int;
    let m = n as int;
    assert(0 <= a * (2 * m - a - 1) <= m * (m - 1)) by (nonlinear_arith)
        requires
            0 <= a <= m,
    {
        assert((m - a) * (m - a - 1) >= 0) by (nonlinear_arith)
            requires
                0 <= a <= m,
        ;
    }
    assert(m * (m - 1) <= 65535 * 65534) by (nonlinear_arith)
        requires
            0 <= m <= 65535,
    ;
}

/// Twice the sum of the first `k` values of `ascending_from_one(n)`.
pub proof fn lemma_ascending_prefix_sum(n: nat, k: nat)
    requires
        k <= n,
    ensures
        2 * seq_sum(ascending_from_one(n).take(k as int)) == k * (k + 1),
    decreases k,
{
    let s = ascending_from_one(n);
    if k == 0 {
        assert(s.take(0) =~= Seq::<int>::empty());
    } else {
        lemma_ascending_prefix_sum(n, (k - 1) as nat);
        lemma_sum_take_next(s, k - 1);
        let a = k as int;
        assert((a - 1) * a + 2 * a == a * (a + 1)) by (nonlinear_arith);
    }
}

/// Every prefix sum of `ascending_from_one(n)` fits in an `i32` when `n` is at
/// most `MAX_COUNT`, and none is negative.
pub proof fn lemma_ascending_prefix_bounded(n: nat, k: nat)
    requires
        k <= n <= MAX_COUNT,
    ensures
        0 <= seq_sum(ascending_from_one(n).take(k as int)) <= i32::MAX,
{
    lemma_ascending_prefix_sum(n, k);
    let a = k as int;
    assert(0 <= a * (a + 1) <= 65535 * 65536) by (nonlinear_arith)
        requires
            0 <= a <= 65535,
    ;
}

} // verus!
