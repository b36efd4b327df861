//! The four demonstrations that one cycle runs: each builds a structure in
//! the region, sized by the event's count, and drains it into output events.

use vstd::prelude::*;
use crate::region::Region;
use crate::scoped::{List, ScopedArray, ScopedBuffer};
use crate::sums::{
    ascending_from_one, count_of, descending, lemma_ascending_prefix_bounded,
    lemma_descending_prefix_bounded, lemma_running_sums_push, lemma_sum_take_next, running_sums,
    seq_sum, MAX_COUNT,
};

verus! {

/// The character that the buffer demonstration fills its buffer with.
pub const FILLER: char = 'a';

/// An event: an optional logical timestamp and a signed payload.
#[derive(Clone, Copy, Debug, PartialEq, Eq, Structural)]
pub struct Event {
    pub time: Option<u64>,
    pub payload: i32,
}

/// One output event per value, each carrying `time`.
pub open spec fn stamped(time: Option<u64>, values: Seq<int>) -> Seq<Event> {
    Seq::new(values.len(), |i: int| Event { time, payload: values[i] as i32 })
}

/// Every prefix sum of `s` fits in an `i32`.
pub open spec fn sums_fit(s: Seq<int>) -> bool {
    forall|k: int| 0 <= k <= s.len() ==> i32::MIN <= #[trigger] seq_sum(s.take(k)) <= i32::MAX
}

/// The values of `s` in the order that repeated pops remove them.
pub open spec fn popped_order(s: Seq<i32>) -> Seq<int> {
    Seq::new(s.len(), |i: int| s[s.len() - 1 - i] as int)
}

/// The code points of `s` in the order that repeated pops remove them.
pub open spec fn popped_codes(s: Seq<char>) -> Seq<int> {
    Seq::new(s.len(), |i: int| (s[s.len() - 1 - i] as u32) as int)
}

/// What the list demonstration emits for `event`.
pub open spec fn list_outputs(event: Event) -> Seq<Event> {
    stamped(event.time, running_sums(descending(count_of(event.payload))))
}

/// `0, 1, ..., n - 1`: what the array demonstration pushes.
pub open spec fn ascending_from_zero(n: nat) -> Seq<i32> {
    Seq::new(n, |i: int| i as i32)
}

/// What the array demonstration emits for `event`: the running sums in the
/// order that pops take the pushed values back.
pub open spec fn array_outputs(event: Event) -> Seq<Event> {
    stamped(event.time, running_sums(popped_order(ascending_from_zero(count_of(event.payload)))))
}

/// What the buffer demonstration emits for `event`: the filler's code point,
/// once per character.
pub open spec fn buffer_outputs(event: Event) -> Seq<Event> {
    stamped(event.time, Seq::new(count_of(event.payload), |i: int| (FILLER as u32) as int))
}

/// What the recursive demonstration emits for `event`.
pub open spec fn recursive_outputs(event: Event) -> Seq<Event> {
    stamped(event.time, running_sums(ascending_from_one(count_of(event.payload))))
}

proof fn lemma_stamped_push(time: Option<u64>, s: Seq<int>, v: int)
    ensures
        stamped(time, s.push(v)) == stamped(time, s).push(Event { time, payload: v as i32 }),
{
    assert(stamped(time, s.push(v)) =~= stamped(time, s).push(Event { time, payload: v as i32 }));
}

proof fn lemma_running_sums_take(s: Seq<int>, k: int)
    requires
        0 <= k < s.len(),
    ensures
        running_sums(s).take(k + 1) == running_sums(s).take(k).push(seq_sum(s.take(k + 1))),
{
    assert(running_sums(s).take(k + 1) =~= running_sums(s).take(k).push(seq_sum(s.take(k + 1))));
}

/// Builds the list of `0..count` by pushing each value in ascending order,
/// so that the head holds the last one.
pub fn fill_list<'a>(region: &'a Region, count: i32) -> (r: List<'a>)
    ensures
        r.values() == descending(count_of(count)),
{
    let mut list = List::Nil;
    let mut i: i32 = 0;
    assert(list.values() =~= descending(0));
    while i < count
        invariant
            0 <= i,
            i == 0 || i <= count,
            list.values() == descending(i as nat),
        decreases count - i,
    {
        let ghost before = list.values();
        list = list.push(region, i);
        assert(seq![i as int] + before =~= descending((i + 1) as nat));
        i = i + 1;
    }
    assert(i as nat == count_of(count));
    list
}

/// Walks `list` from head to tail, emitting the running sum after each node.
pub fn drain_list(list: &List, time: Option<u64>, out: &mut Vec<Event>)
    requires
        sums_fit(list.values()),
    ensures
        final(out)@ == old(out)@ + stamped(time, running_sums(list.values())),
{
    let ghost vals = list.values();
    let ghost start = out@;
    let mut sum: i32 = 0;
    let mut iter: &List = list;
    let ghost mut k: int = 0;
    assert(vals.skip(0) =~= vals);
    assert(vals.take(0) =~= Seq::<int>::empty());
    assert(running_sums(vals).take(0) =~= Seq::<int>::empty());
    assert(start + stamped(time, Seq::<int>::empty()) =~= start);
    loop
        invariant
            sums_fit(vals),
            0 <= k <= vals.len(),
            iter.values() == vals.skip(k),
            sum == seq_sum(vals.take(k)),
            out@ == start + stamped(time, running_sums(vals).take(k)),
        ensures
            k == vals.len(),
        decreases iter.values().len(),
    {
        match iter {
            List::Cons(v, tail) => {
                proof {
                    assert(iter.values() == seq![*v as int] + tail.values());
                    assert(vals.skip(k)[0] == vals[k]);
                    let ghost rest = vals.skip(k);
                    assert((seq![*v as int] + tail.values()).drop_first() =~= tail.values());
                    assert(rest.drop_first() =~= vals.skip(k + 1));
                    lemma_sum_take_next(vals, k);
                    lemma_running_sums_take(vals, k);
                    lemma_stamped_push(time, running_sums(vals).take(k), seq_sum(vals.take(k + 1)));
                }
                sum = sum + *v;
                iter = tail;
                out.push(Event { time, payload: sum });
                proof {
                    k = k + 1;
                }
            },
            List::Nil => {
                assert(vals.skip(k).len() == 0);
                break;
            },
        }
    }
    assert(running_sums(vals).take(k) =~= running_sums(vals));
}

/// Builds the array of `0..count` by pushing each value in ascending order.
pub fn fill_array<'a>(region: &'a Region, count: i32) -> (r: ScopedArray<'a>)
    ensures
        r@ == ascending_from_zero(count_of(count)),
{
    let mut array = ScopedArray::new_in(region);
    let mut i: i32 = 0;
    while i < count
        invariant
            0 <= i,
            i == 0 || i <= count,
            array@.len() == i,
            forall|j: int| 0 <= j < array@.len() ==> array@[j] == j,
        decreases count - i,
    {
        array.push(i);
        i = i + 1;
    }
    assert(array@ =~= ascending_from_zero(count_of(count)));
    array
}

/// Pops `array` until it is empty, emitting the running sum after each pop.
pub fn drain_array(array: &mut ScopedArray, time: Option<u64>, out: &mut Vec<Event>)
    requires
        sums_fit(popped_order(old(array)@)),
    ensures
        final(array)@ == Seq::<i32>::empty(),
        final(out)@ == old(out)@ + stamped(time, running_sums(popped_order(old(array)@))),
{
    let ghost orig = array@;
    let ghost order = popped_order(orig);
    let ghost start = out@;
    let mut sum: i32 = 0;
    let ghost mut k: int = 0;
    assert(orig.take(orig.len() as int) =~= orig);
    assert(order.take(0) =~= Seq::<int>::empty());
    assert(running_sums(order).take(0) =~= Seq::<int>::empty());
    assert(start + stamped(time, Seq::<int>::empty()) =~= start);
    loop
        invariant
            sums_fit(order),
            order == popped_order(orig),
            0 <= k <= orig.len(),
            array@ == orig.take(orig.len() - k),
            sum == seq_sum(order.take(k)),
            out@ == start + stamped(time, running_sums(order).take(k)),
        ensures
            k == orig.len(),
            array@ == Seq::<i32>::empty(),
        decreases array@.len(),
    {
        let popped = array.pop();
        match popped {
            Some(v) => {
                proof {
                    assert(v == order[k]);
                    assert(orig.take(orig.len() - k).drop_last() =~= orig.take(orig.len() - k - 1));
                    lemma_sum_take_next(order, k);
                    lemma_running_sums_take(order, k);
                    lemma_stamped_push(time, running_sums(order).take(k), seq_sum(order.take(k + 1)));
                }
                sum = sum + v;
                out.push(Event { time, payload: sum });
                proof {
                    k = k + 1;
                }
            },
            None => {
                break;
            },
        }
    }
    assert(running_sums(order).take(k) =~= running_sums(order));
}

/// Builds a buffer holding `count` copies of the filler character.
pub fn fill_buffer<'a>(region: &'a Region, count: i32) -> (r: ScopedBuffer<'a>)
    ensures
        r@ == Seq::new(count_of(count), |i: int| FILLER),
{
    let mut buffer = ScopedBuffer::new_in(region);
    let mut i: i32 = 0;
    while i < count
        invariant
            0 <= i,
            i == 0 || i <= count,
            buffer@ == Seq::new(i as nat, |j: int| FILLER),
        decreases count - i,
    {
        buffer.push(FILLER);
        assert(buffer@ =~= Seq::new((i + 1) as nat, |j: int| FILLER));
        i = i + 1;
    }
    buffer
}

/// Pops `buffer` until it is empty, emitting each character's code point.
pub fn drain_buffer(buffer: &mut ScopedBuffer, time: Option<u64>, out: &mut Vec<Event>)
    ensures
        final(buffer)@ == Seq::<char>::empty(),
        final(out)@ == old(out)@ + stamped(time, popped_codes(old(buffer)@)),
{
    let ghost orig = buffer@;
    let ghost codes = popped_codes(orig);
    let ghost start = out@;
    let ghost mut k: int = 0;
    assert(orig.take(orig.len() as int) =~= orig);
    assert(start + stamped(time, codes.take(0)) =~= start);
    loop
        invariant
            codes == popped_codes(orig),
            0 <= k <= orig.len(),
            buffer@ == orig.take(orig.len() - k),
            out@ == start + stamped(time, codes.take(k)),
        ensures
            k == orig.len(),
            buffer@ == Seq::<char>::empty(),
        decreases buffer@.len(),
    {
        let popped = buffer.pop();
        match popped {
            Some(c) => {
                proof {
                    assert(c == orig[orig.len() - 1 - k]);
                    vstd::utf8::char_is_scalar(c);
                    assert(orig.take(orig.len() - k).drop_last() =~= orig.take(orig.len() - k - 1));
                    assert(codes.take(k + 1) =~= codes.take(k).push(codes[k]));
                    lemma_stamped_push(time, codes.take(k), codes[k]);
                }
                let code = c as u32;
                out.push(Event { time, payload: code as i32 });
                proof {
                    k = k + 1;
                }
            },
            None => {
                break;
            },
        }
    }
    assert(codes.take(k) =~= codes);
}

/// Builds the list `n, n - 1, ..., 1` by recursing to the empty list first and
/// allocating each node as the calls return.
pub fn build_recursive<'a>(region: &'a Region, n: i32) -> (r: List<'a>)
    ensures
        r.deepest_first() == ascending_from_one(count_of(n)),
    decreases n,
{
    if n <= 0 {
        assert(ascending_from_one(0) =~= Seq::<int>::empty());
        List::Nil
    } else {
        let tail = build_recursive(region, n - 1);
        let r = tail.push(region, n);
        assert(ascending_from_one((n - 1) as nat).push(n as int) =~= ascending_from_one(n as nat));
        r
    }
}

/// Sums `list` from the deepest node outwards, emitting the partial sum as
/// each call returns; returns the sum of the whole list.
pub fn consume_recursive(list: &List, time: Option<u64>, out: &mut Vec<Event>) -> (total: i32)
    requires
        sums_fit(list.deepest_first()),
    ensures
        total == seq_sum(list.deepest_first()),
        final(out)@ == old(out)@ + stamped(time, running_sums(list.deepest_first())),
    decreases list,
{
    match list {
        List::Cons(v, tail) => {
            let ghost below_seq = tail.deepest_first();
            let ghost whole = list.deepest_first();
            proof {
                assert(whole == below_seq.push(*v as int));
                assert forall|k: int| 0 <= k <= below_seq.len() implies i32::MIN <= #[trigger] seq_sum(
                    below_seq.take(k),
                ) <= i32::MAX by {
                    assert(whole.take(k) =~= below_seq.take(k));
                }
                assert(whole.drop_last() =~= below_seq);
                assert(whole.take(whole.len() as int) =~= whole);
                assert(i32::MIN <= seq_sum(whole.take(whole.len() as int)) <= i32::MAX);
            }
            let below = consume_recursive(tail, time, out);
            let sum = *v + below;
            proof {
                lemma_running_sums_push(below_seq, *v as int);
                lemma_stamped_push(time, running_sums(below_seq), sum as int);
            }
            out.push(Event { time, payload: sum });
            sum
        },
        List::Nil => {
            assert(running_sums(Seq::<int>::empty()) =~= Seq::<int>::empty());
            assert(old(out)@ + stamped(time, Seq::<int>::empty()) =~= old(out)@);
            0
        },
    }
}

/// Popping the values pushed in ascending order gives them back descending.
pub proof fn lemma_popped_ascending(n: nat)
    requires
        n <= i32::MAX,
    ensures
        popped_order(ascending_from_zero(n)) == descending(n),
{
    assert(popped_order(ascending_from_zero(n)) =~= descending(n));
}

/// The list and the array demonstrations agree: for every event they emit
/// the same outputs in the same order.
pub proof fn lemma_array_matches_list(event: Event)
    ensures
        array_outputs(event) == list_outputs(event),
{
    lemma_popped_ascending(count_of(event.payload));
}

proof fn lemma_descending_sums_fit(n: nat)
    requires
        n <= MAX_COUNT,
    ensures
        sums_fit(descending(n)),
{
    assert forall|k: int| 0 <= k <= descending(n).len() implies i32::MIN <= #[trigger] seq_sum(
        descending(n).take(k),
    ) <= i32::MAX by {
        lemma_descending_prefix_bounded(n, k as nat);
    }
}

/// The list demonstration: builds the list of `0..count` and emits the
/// running sums from head to tail.
pub fn emit_list_sums(region: &Region, event: Event, out: &mut Vec<Event>)
    requires
        event.payload <= MAX_COUNT,
    ensures
        final(out)@ == old(out)@ + list_outputs(event),
{
    let list = fill_list(region, event.payload);
    proof {
        lemma_descending_sums_fit(count_of(event.payload));
    }
    drain_list(&list, event.time, out);
}

/// The array demonstration: builds the array of `0..count` and emits the
/// running sums as it pops the array empty.
pub fn emit_array_sums(region: &Region, event: Event, out: &mut Vec<Event>)
    requires
        event.payload <= MAX_COUNT,
    ensures
        final(out)@ == old(out)@ + array_outputs(event),
{
    let mut array = fill_array(region, event.payload);
    let ghost n = count_of(event.payload);
    proof {
        lemma_popped_ascending(n);
        lemma_descending_sums_fit(n);
    }
    drain_array(&mut array, event.time, out);
}

/// The buffer demonstration: fills the buffer with the filler character and
/// emits its code point once per pop.
pub fn emit_buffer_codes(region: &Region, event: Event, out: &mut Vec<Event>)
    ensures
        final(out)@ == old(out)@ + buffer_outputs(event),
{
    let mut buffer = fill_buffer(region, event.payload);
    proof {
        assert(popped_codes(buffer@) =~= Seq::new(
            count_of(event.payload),
            |i: int| (FILLER as u32) as int,
        ));
    }
    drain_buffer(&mut buffer, event.time, out);
}

/// The recursive demonstration: builds the list of `1..=count` recursively and
/// emits the partial sums as the consuming recursion returns.
pub fn emit_recursive_sums(region: &Region, event: Event, out: &mut Vec<Event>)
    requires
        event.payload <= MAX_COUNT,
    ensures
        final(out)@ == old(out)@ + recursive_outputs(event),
{
    let list = build_recursive(region, event.payload);
    let ghost n = count_of(event.payload);
    proof {
        assert forall|k: int| 0 <= k <= ascending_from_one(n).len() implies i32::MIN
            <= #[trigger] seq_sum(ascending_from_one(n).take(k)) <= i32::MAX by {
            lemma_ascending_prefix_bounded(n, k as nat);
        }
    }
    let _total = consume_recursive(&list, event.time, out);
}

} // verus!
