use njord::utilites::Memory;

#[test]
fn new_log_is_empty() {
    let log: Memory<u32> = Memory::new(4);
    assert_eq!(log.len(), 0);
    assert_eq!(log.count(), 0);
    assert!(log.is_empty());
    assert_eq!(log.get(0), None);
}

#[test]
fn push_below_capacity_evicts_nothing() {
    let mut log = Memory::new(3);
    assert_eq!(log.push(10), None);
    assert_eq!(log.push(20), None);
    assert_eq!(log.len(), 2);
    assert_eq!(log.count(), 2);
    assert!(!log.is_empty());
    assert_eq!(log.get(0), Some(&10));
    assert_eq!(log.get(1), Some(&20));
    assert_eq!(log.get(2), None);
}

#[test]
fn push_at_capacity_evicts_the_oldest() {
    let mut log = Memory::new(3);
    assert_eq!(log.push('a'), None);
    assert_eq!(log.push('b'), None);
    assert_eq!(log.push('c'), None);
    assert_eq!(log.push('d'), Some('a'));
    assert_eq!(log.len(), 3);
    assert_eq!(log.count(), 4);
    assert_eq!(log.get(0), Some(&'b'));
    assert_eq!(log.get(1), Some(&'c'));
    assert_eq!(log.get(2), Some(&'d'));
    assert_eq!(log.get(3), None);
}

#[test]
fn one_push_more_than_capacity_keeps_the_last_entries_in_order() {
    for capacity in 1..20usize {
        let mut log = Memory::new(capacity);
        for value in 0..=capacity {
            let evicted = log.push(value);
            if value < capacity {
                assert_eq!(evicted, None);
            } else {
                assert_eq!(evicted, Some(0));
            }
        }
        assert_eq!(log.len(), capacity);
        assert_eq!(log.count(), capacity + 1);
        for index in 0..capacity {
            assert_eq!(log.get(index), Some(&(index + 1)));
        }
    }
}

#[test]
fn many_pushes_keep_the_newest() {
    let mut log = Memory::new(5);
    for value in 0..1000u32 {
        let evicted = log.push(value);
        if value >= 5 {
            assert_eq!(evicted, Some(value - 5));
        }
        assert!(log.len() <= 5);
    }
    assert_eq!(log.count(), 1000);
    assert_eq!(log.len(), 5);
    for index in 0..5 {
        assert_eq!(log.get(index), Some(&(995 + index as u32)));
    }
}

#[test]
fn log_of_capacity_zero_stays_empty_and_counts() {
    let mut log = Memory::new(0);
    assert_eq!(log.push(7), Some(7));
    assert_eq!(log.len(), 0);
    assert_eq!(log.count(), 1);
    assert!(log.is_empty());
    assert_eq!(log.get(0), None);
    assert_eq!(log.push(8), Some(8));
    assert_eq!(log.len(), 0);
    assert_eq!(log.count(), 2);
}

#[test]
fn log_never_holds_more_than_its_capacity() {
    for capacity in 0..6usize {
        let mut log = Memory::new(capacity);
        for value in 0..20usize {
            log.push(value);
            assert!(log.len() <= capacity);
            assert_eq!(log.len(), capacity.min(value + 1));
            assert_eq!(log.count(), value + 1);
        }
    }
}

#[test]
fn log_is_indexed_from_the_oldest_entry() {
    let mut log = Memory::new(3);
    for value in [10, 20, 30, 40] {
        log.push(value);
    }
    assert_eq!(log[0], 20);
    assert_eq!(log[1], 30);
    assert_eq!(log[2], 40);
}

#[test]
fn log_holds_entries_that_are_not_copied() {
    let mut log = Memory::new(1);
    assert_eq!(log.push(String::from("first")), None);
    assert_eq!(log.push(String::from("second")), Some(String::from("first")));
    assert_eq!(log.get(0).map(|text| text.as_str()), Some("second"));
}
