use linked_queue::List;

#[test]
fn basics() {
    let mut list = List::new();

    // Check empty list behaves right
    assert_eq!(list.pop(), None);

    // Populate list
    list.push(1);
    list.push(2);
    list.push(3);

    // Check normal removal
    assert_eq!(list.pop(), Some(1));
    assert_eq!(list.pop(), Some(2));

    // Push some more to make sure nothing's corrupted
    list.push(4);
    list.push(5);

    // Check normal removal
    assert_eq!(list.pop(), Some(3));
    assert_eq!(list.pop(), Some(4));

    // Check exhaustion
    assert_eq!(list.pop(), Some(5));
    assert_eq!(list.pop(), None);
}

#[test]
fn fresh_queue_has_nothing_to_remove() {
    let mut list: List<u32> = List::new();
    assert_eq!(list.pop(), None);
}

#[test]
fn removals_come_in_insertion_order() {
    let values: Vec<u64> = (0..1000u64).map(|i| i * 7 % 13).collect();
    let mut list = List::new();
    for v in &values {
        list.push(*v);
    }
    let mut out = Vec::new();
    for _ in 0..values.len() {
        out.push(list.pop());
    }
    let expected: Vec<Option<u64>> = values.iter().map(|v| Some(*v)).collect();
    assert_eq!(out, expected);
    assert_eq!(list.pop(), None);
}

#[test]
fn interleaving_keeps_insertion_order() {
    let mut list = List::new();
    let mut next_in = 0u32;
    let mut next_out = 0u32;
    for round in 0..50u32 {
        for _ in 0..(round % 4 + 1) {
            list.push(next_in);
            next_in += 1;
        }
        for _ in 0..(round % 3 + 1) {
            if next_out < next_in {
                assert_eq!(list.pop(), Some(next_out));
                next_out += 1;
            } else {
                assert_eq!(list.pop(), None);
            }
        }
    }
    while next_out < next_in {
        assert_eq!(list.pop(), Some(next_out));
        next_out += 1;
    }
    assert_eq!(list.pop(), None);
}

#[test]
fn earlier_element_leaves_first() {
    let mut list = List::new();
    list.push("a");
    list.push("b");
    list.push("c");
    assert_eq!(list.pop(), Some("a"));
    list.push("d");
    assert_eq!(list.pop(), Some("b"));
    assert_eq!(list.pop(), Some("c"));
    assert_eq!(list.pop(), Some("d"));
    assert_eq!(list.pop(), None);
}

#[test]
fn drained_queue_takes_a_new_element() {
    let mut list = List::new();
    list.push(1);
    list.push(2);
    assert_eq!(list.pop(), Some(1));
    assert_eq!(list.pop(), Some(2));
    list.push(9);
    assert_eq!(list.pop(), Some(9));
    assert_eq!(list.pop(), None);
}

#[test]
fn empty_queue_stays_empty() {
    let mut list: List<i64> = List::new();
    for _ in 0..10 {
        assert_eq!(list.pop(), None);
    }
    list.push(-3);
    assert_eq!(list.pop(), Some(-3));
    for _ in 0..10 {
        assert_eq!(list.pop(), None);
    }
}

#[test]
fn mixed_run_of_five() {
    let mut list = List::new();
    list.push(1);
    list.push(2);
    list.push(3);
    assert_eq!(list.pop(), Some(1));
    assert_eq!(list.pop(), Some(2));
    list.push(4);
    list.push(5);
    assert_eq!(list.pop(), Some(3));
    assert_eq!(list.pop(), Some(4));
    assert_eq!(list.pop(), Some(5));
    assert_eq!(list.pop(), None);
}

#[test]
fn usable_again_after_full_drain() {
    let mut list = List::new();
    assert_eq!(list.pop(), None);
    list.push(10);
    assert_eq!(list.pop(), Some(10));
    assert_eq!(list.pop(), None);
}

#[test]
fn single_slot_is_used_over_and_over() {
    let mut list = List::new();
    for i in 0..10_000u32 {
        list.push(i);
        assert_eq!(list.pop(), Some(i));
    }
    assert_eq!(list.pop(), None);
}

#[test]
fn emptied_slots_serve_later_insertions() {
    let mut list = List::new();
    for i in 0..8u32 {
        list.push(i);
    }
    for i in 0..5u32 {
        assert_eq!(list.pop(), Some(i));
    }
    for i in 8..20u32 {
        list.push(i);
    }
    for i in 5..20u32 {
        assert_eq!(list.pop(), Some(i));
    }
    assert_eq!(list.pop(), None);
}

#[test]
fn owned_elements_come_back_whole() {
    let mut list = List::new();
    list.push(String::from("first"));
    list.push(String::from("second"));
    assert_eq!(list.pop(), Some(String::from("first")));
    list.push(String::from("third"));
    assert_eq!(list.pop(), Some(String::from("second")));
    assert_eq!(list.pop(), Some(String::from("third")));
    assert_eq!(list.pop(), None);
}

#[test]
fn equal_elements_are_kept_apart() {
    let mut list = List::new();
    list.push(5);
    list.push(5);
    list.push(6);
    list.push(5);
    assert_eq!(list.pop(), Some(5));
    assert_eq!(list.pop(), Some(5));
    assert_eq!(list.pop(), Some(6));
    assert_eq!(list.pop(), Some(5));
    assert_eq!(list.pop(), None);
}

#[test]
fn queue_dropped_with_elements_left() {
    let mut list = List::new();
    for i in 0..100u32 {
        list.push(vec![i; 3]);
    }
    assert_eq!(list.pop(), Some(vec![0, 0, 0]));
}
