//! The cycle controller: owns the region and runs one cycle per input event.

use vstd::prelude::*;
use crate::demos::{
    array_outputs, buffer_outputs, emit_array_sums, emit_buffer_codes, emit_list_sums,
    emit_recursive_sums, list_outputs, recursive_outputs, Event,
};
use crate::region::Region;
use crate::sums::MAX_COUNT;

verus! {

/// Everything one cycle emits for `event`, in the order the demonstrations
/// run: list, array, buffer, recursive.
pub open spec fn cycle_outputs(event: Event) -> Seq<Event> {
    list_outputs(event) + array_outputs(event) + buffer_outputs(event) + recursive_outputs(event)
}

/// One cycle as a state transition: from the region's generation before the
/// event to the generation it runs in, together with what it emits.
pub open spec fn cycle_step(generation: nat, event: Event) -> (nat, Seq<Event>) {
    (generation + 1, cycle_outputs(event))
}

/// An element processor that handles each event with memory from its own
/// region and keeps nothing from one event to the next.
pub struct Processor {
    region: Region,
}

impl Processor {
    /// The generation of the region: how many cycles have started.
    pub closed spec fn generation(&self) -> nat {
        self.region.generation()
    }

    /// A processor whose region starts empty.
    pub fn new() -> (r: Processor)
        ensures
            r.generation() == 0,
    {
        Processor { region: Region::new() }
    }

    /// A processor whose region has room for `initial_region_capacity` bytes
    /// before it first grows.
    pub fn with_capacity(initial_region_capacity: usize) -> (r: Processor)
        ensures
            r.generation() == 0,
    {
        Processor { region: Region::with_capacity(initial_region_capacity) }
    }

    /// Handles one event: rewinds the region once, then runs the list, array,
    /// buffer and recursive demonstrations in that order and returns what they
    /// emitted, each output carrying the event's time.
    pub fn on_event(&mut self, event: Event) -> (r: Vec<Event>)
        requires
            event.payload <= MAX_COUNT,
        ensures
            (final(self).generation(), r@) == cycle_step(old(self).generation(), event),
    {
        self.region.rewind();
        let mut out: Vec<Event> = Vec::new();
        emit_list_sums(&self.region, event, &mut out);
        emit_array_sums(&self.region, event, &mut out);
        emit_buffer_codes(&self.region, event, &mut out);
        emit_recursive_sums(&self.region, event, &mut out);
        assert(out@ =~= cycle_outputs(event));
        out
    }
}

/// An event whose count is zero or negative makes every demonstration emit
/// nothing.
pub proof fn lemma_no_count_no_output(event: Event)
    requires
        event.payload <= 0,
    ensures
        cycle_outputs(event) == Seq::<Event>::empty(),
{
    assert(cycle_outputs(event) =~= Seq::<Event>::empty());
}

/// The rewind invariant: a cycle runs in a generation later than every
/// allocation of the cycles before it, and what it emits depends on its own
/// event alone, whatever events the processor handled earlier.
pub proof fn lemma_cycles_isolated(generation: nat, first: Event, second: Event)
    ensures
        cycle_step(generation, first).0 > generation,
        cycle_step(cycle_step(generation, first).0, second).0 > cycle_step(generation, first).0,
        cycle_step(cycle_step(generation, first).0, second).1 == cycle_step(0, second).1,
{
}

} // verus!
