use arena_processor::demos::{
    build_recursive, consume_recursive, drain_array, drain_buffer, drain_list, fill_array,
    fill_buffer, fill_list, Event,
};
use arena_processor::region::Region;
use arena_processor::scoped::{List, ScopedArray, ScopedBuffer};

fn list_values(list: &List) -> Vec<i32> {
    let mut values = Vec::new();
    let mut iter = list;
    while let List::Cons(v, tail) = iter {
        values.push(*v);
        iter = tail;
    }
    values
}

#[test]
fn list_push_prepends() {
    let region = Region::new();
    let list = List::Nil.push(&region, 1).push(&region, 2).push(&region, 3);
    assert_eq!(list_values(&list), vec![3, 2, 1]);
}

#[test]
fn fill_list_puts_last_value_at_head() {
    let region = Region::new();
    let list = fill_list(&region, 4);
    assert_eq!(list_values(&list), vec![3, 2, 1, 0]);
    assert!(matches!(fill_list(&region, -2), List::Nil));
}

#[test]
fn drain_list_emits_running_sums() {
    let region = Region::new();
    let list = List::Nil.push(&region, 10).push(&region, -4).push(&region, 7);
    let mut out = vec![Event { time: None, payload: 99 }];
    drain_list(&list, Some(3), &mut out);
    let got: Vec<(Option<u64>, i32)> = out.iter().map(|e| (e.time, e.payload)).collect();
    assert_eq!(got, vec![(None, 99), (Some(3), 7), (Some(3), 3), (Some(3), 13)]);
}

#[test]
fn array_push_pop_and_len() {
    let region = Region::new();
    let mut array = ScopedArray::new_in(&region);
    assert_eq!(array.len(), 0);
    assert_eq!(array.pop(), None);
    array.push(4);
    array.push(8);
    assert_eq!(array.len(), 2);
    assert_eq!(array.pop(), Some(8));
    assert_eq!(array.pop(), Some(4));
    assert_eq!(array.pop(), None);
    assert_eq!(array.len(), 0);
}

#[test]
fn fill_array_holds_ascending_values() {
    let region = Region::new();
    let mut array = fill_array(&region, 3);
    assert_eq!(array.len(), 3);
    assert_eq!(array.pop(), Some(2));
    assert_eq!(array.pop(), Some(1));
    assert_eq!(array.pop(), Some(0));
    assert_eq!(array.pop(), None);
}

#[test]
fn drain_array_pops_from_the_end() {
    let region = Region::new();
    let mut array = ScopedArray::new_in(&region);
    array.push(1);
    array.push(2);
    array.push(5);
    let mut out = Vec::new();
    drain_array(&mut array, None, &mut out);
    let got: Vec<i32> = out.iter().map(|e| e.payload).collect();
    assert_eq!(got, vec![5, 7, 8]);
    assert_eq!(array.len(), 0);
}

#[test]
fn buffer_push_and_pop() {
    let region = Region::new();
    let mut buffer = ScopedBuffer::new_in(&region);
    assert_eq!(buffer.pop(), None);
    buffer.push('x');
    buffer.push('\u{e9}');
    assert_eq!(buffer.pop(), Some('\u{e9}'));
    assert_eq!(buffer.pop(), Some('x'));
    assert_eq!(buffer.pop(), None);
}

#[test]
fn drain_buffer_emits_code_points_last_first() {
    let region = Region::new();
    let mut buffer = ScopedBuffer::new_in(&region);
    buffer.push('A');
    buffer.push('z');
    let mut out = Vec::new();
    drain_buffer(&mut buffer, Some(8), &mut out);
    let got: Vec<i32> = out.iter().map(|e| e.payload).collect();
    assert_eq!(got, vec![122, 65]);
    assert_eq!(buffer.pop(), None);
}

#[test]
fn fill_buffer_holds_filler() {
    let region = Region::new();
    let mut buffer = fill_buffer(&region, 2);
    assert_eq!(buffer.pop(), Some('a'));
    assert_eq!(buffer.pop(), Some('a'));
    assert_eq!(buffer.pop(), None);
}

#[test]
fn build_recursive_puts_count_at_head() {
    let region = Region::new();
    let list = build_recursive(&region, 4);
    assert_eq!(list_values(&list), vec![4, 3, 2, 1]);
    assert!(matches!(build_recursive(&region, -1), List::Nil));
}

#[test]
fn consume_recursive_returns_total() {
    let region = Region::new();
    let list = build_recursive(&region, 4);
    let mut out = Vec::new();
    let total = consume_recursive(&list, None, &mut out);
    assert_eq!(total, 10);
    let got: Vec<i32> = out.iter().map(|e| e.payload).collect();
    assert_eq!(got, vec![1, 3, 6, 10]);
}

#[test]
fn rewound_region_starts_empty_structures() {
    let mut region = Region::with_capacity(64);
    {
        let mut array = ScopedArray::new_in(&region);
        for i in 0..100 {
            array.push(i);
        }
        let mut buffer = ScopedBuffer::new_in(&region);
        buffer.push('q');
    }
    region.rewind();
    let mut array = ScopedArray::new_in(&region);
    assert_eq!(array.len(), 0);
    assert_eq!(array.pop(), None);
    let mut buffer = ScopedBuffer::new_in(&region);
    assert_eq!(buffer.pop(), None);
}

#[test]
fn region_allocate_keeps_the_value() {
    let region = Region::new();
    let first = region.allocate(17i64);
    let second = region.allocate((3u8, 'k'));
    assert_eq!(*first, 17);
    assert_eq!(*second, (3, 'k'));
}
