use arena_processor::demos::{
    emit_array_sums, emit_buffer_codes, emit_list_sums, emit_recursive_sums, Event, FILLER,
};
use arena_processor::processor::Processor;
use arena_processor::region::Region;
use arena_processor::sums::MAX_COUNT;

fn payloads(events: &[Event]) -> Vec<i32> {
    events.iter().map(|e| e.payload).collect()
}

fn event(time: Option<u64>, payload: i32) -> Event {
    Event { time, payload }
}

#[test]
fn list_drain_order_for_four() {
    let region = Region::new();
    let mut out = Vec::new();
    emit_list_sums(&region, event(Some(9), 4), &mut out);
    assert_eq!(payloads(&out), vec![3, 5, 6, 6]);
    assert!(out.iter().all(|e| e.time == Some(9)));
}

#[test]
fn array_drain_order_for_four() {
    let region = Region::new();
    let mut out = Vec::new();
    emit_array_sums(&region, event(Some(9), 4), &mut out);
    assert_eq!(payloads(&out), vec![3, 5, 6, 6]);
    assert!(out.iter().all(|e| e.time == Some(9)));
}

#[test]
fn list_and_array_agree() {
    let region = Region::new();
    for n in 0..20 {
        let mut from_list = Vec::new();
        let mut from_array = Vec::new();
        emit_list_sums(&region, event(None, n), &mut from_list);
        emit_array_sums(&region, event(None, n), &mut from_array);
        assert_eq!(from_list, from_array);
    }
}

#[test]
fn buffer_drain_for_three() {
    let region = Region::new();
    let mut out = Vec::new();
    emit_buffer_codes(&region, event(None, 3), &mut out);
    assert_eq!(FILLER, 'a');
    assert_eq!(payloads(&out), vec![97, 97, 97]);
    assert!(out.iter().all(|e| e.time.is_none()));
}

#[test]
fn recursive_sums_for_three() {
    let region = Region::new();
    let mut out = Vec::new();
    emit_recursive_sums(&region, event(Some(1), 3), &mut out);
    assert_eq!(payloads(&out), vec![1, 3, 6]);
}

#[test]
fn zero_and_negative_counts_emit_nothing() {
    let mut processor = Processor::new();
    assert!(processor.on_event(event(Some(5), 0)).is_empty());
    assert!(processor.on_event(event(Some(5), -5)).is_empty());
    let region = Region::new();
    for n in [0, -5] {
        let mut out = Vec::new();
        emit_list_sums(&region, event(None, n), &mut out);
        emit_array_sums(&region, event(None, n), &mut out);
        emit_buffer_codes(&region, event(None, n), &mut out);
        emit_recursive_sums(&region, event(None, n), &mut out);
        assert!(out.is_empty());
    }
}

#[test]
fn one_cycle_runs_all_demonstrations_in_order() {
    let mut processor = Processor::new();
    let out = processor.on_event(event(Some(42), 2));
    assert_eq!(payloads(&out), vec![1, 1, 1, 1, 97, 97, 1, 3]);
    assert!(out.iter().all(|e| e.time == Some(42)));
}

#[test]
fn one_cycle_for_four() {
    let mut processor = Processor::with_capacity(1024);
    let out = processor.on_event(event(None, 4));
    assert_eq!(
        payloads(&out),
        vec![3, 5, 6, 6, 3, 5, 6, 6, 97, 97, 97, 97, 1, 3, 6, 10]
    );
}

#[test]
fn earlier_events_do_not_show_in_later_cycles() {
    let mut reused = Processor::new();
    let _ = reused.on_event(event(Some(1), 50));
    let _ = reused.on_event(event(Some(2), 7));
    let second = reused.on_event(event(Some(3), 3));
    let mut fresh = Processor::new();
    assert_eq!(second, fresh.on_event(event(Some(3), 3)));
}

#[test]
fn retained_capacity_is_not_read_as_structure() {
    let mut processor = Processor::with_capacity(16);
    let big = processor.on_event(event(None, 1000));
    assert_eq!(big.len(), 4000);
    let small = processor.on_event(event(None, 1));
    assert_eq!(payloads(&small), vec![0, 0, 97, 1]);
}

#[test]
fn largest_count_keeps_sums_in_range() {
    let region = Region::new();
    let mut out = Vec::new();
    emit_list_sums(&region, event(None, MAX_COUNT), &mut out);
    assert_eq!(out.len(), MAX_COUNT as usize);
    assert_eq!(out[0].payload, MAX_COUNT - 1);
    assert_eq!(out[out.len() - 1].payload, 2147385345);
    let mut array_out = Vec::new();
    emit_array_sums(&region, event(None, MAX_COUNT), &mut array_out);
    assert_eq!(out, array_out);
}

#[test]
fn recursive_sums_for_five() {
    let region = Region::new();
    let mut out = Vec::new();
    emit_recursive_sums(&region, event(None, 5), &mut out);
    assert_eq!(payloads(&out), vec![1, 3, 6, 10, 15]);
}
