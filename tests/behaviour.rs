use staticbip::StaticBip;

#[test]
fn doc_example_commit_then_decommit() {
    let mut buffer = StaticBip::<u8, 4>::default();
    buffer.reserve(4).copy_from_slice(&[1, 2, 3, 4]);
    buffer.commit(3);
    assert_eq!(buffer.read(), &[1, 2, 3]);
    buffer.decommit(2);
    assert_eq!(buffer.read(), &[3]);
}

#[test]
fn new_over_given_store() {
    let mut buffer = StaticBip::new([7u32, 8, 9]);
    assert_eq!(buffer.capacity(), 3);
    assert!(buffer.is_empty());
    assert_eq!(buffer.reserve(3), &[7, 8, 9]);
}

#[test]
fn second_reserve_discards_first() {
    let mut buffer = StaticBip::<u8, 4>::default();
    assert_eq!(buffer.reserve(3).len(), 3);
    assert_eq!(buffer.reserve(1).len(), 1);
    assert_eq!(buffer.reserved(), 1);
    buffer.commit(4);
    assert_eq!(buffer.committed(), 1);
    assert_eq!(buffer.reserved(), 0);
}

#[test]
fn commit_zero_drops_reservation() {
    let mut buffer = StaticBip::<u8, 4>::default();
    buffer.reserve(2).copy_from_slice(&[5, 6]);
    buffer.commit(0);
    assert_eq!(buffer.reserved(), 0);
    assert_eq!(buffer.committed(), 0);
    assert!(buffer.is_empty());
}

#[test]
fn partial_commit_drops_rest_of_window() {
    let mut buffer = StaticBip::<u8, 4>::default();
    buffer.reserve(4).copy_from_slice(&[1, 2, 3, 4]);
    buffer.commit(2);
    assert_eq!(buffer.reserved(), 0);
    assert_eq!(buffer.read(), &[1, 2]);
    assert_eq!(buffer.reserve(4).len(), 2);
}

#[test]
fn round_trip_full_capacity() {
    let mut buffer = StaticBip::<u16, 5>::default();
    buffer.reserve(5).copy_from_slice(&[10, 20, 30, 40, 50]);
    buffer.commit(5);
    assert_eq!(buffer.read(), &[10, 20, 30, 40, 50]);
    assert_eq!(buffer.committed(), 5);
}

#[test]
fn reserve_max_takes_all_free_space() {
    let mut buffer = StaticBip::<u8, 6>::default();
    assert_eq!(buffer.reserve_max().len(), 6);
    buffer.commit(4);
    assert_eq!(buffer.reserve_max().len(), 2);
}

#[test]
fn reserve_at_front_when_front_is_larger() {
    let mut buffer = StaticBip::<u8, 8>::default();
    buffer.reserve(7).copy_from_slice(&[1, 2, 3, 4, 5, 6, 7]);
    buffer.commit(7);
    buffer.decommit(5);
    // one slot after `a`, five before it: the window starts at the front
    assert_eq!(buffer.reserve(8).len(), 5);
    buffer.reserve(8).copy_from_slice(&[9, 9, 9, 9, 9]);
    buffer.commit(5);
    assert_eq!(buffer.read(), &[6, 7]);
    // `b` now lies before `a`: the next window is what is left between them
    assert_eq!(buffer.reserve(8).len(), 0);
    assert_eq!(buffer.committed(), 7);
}

#[test]
fn decommit_excess_rotates_once() {
    let mut buffer = StaticBip::<u8, 4>::default();
    buffer.reserve(4).copy_from_slice(&[1, 2, 3, 4]);
    buffer.commit(4);
    buffer.decommit(2);
    buffer.reserve(4).copy_from_slice(&[5, 6]);
    buffer.commit(2);
    buffer.decommit(10);
    assert_eq!(buffer.read(), &[5, 6]);
    assert_eq!(buffer.committed(), 2);
}

#[test]
fn pop_on_empty_is_none() {
    let mut buffer = StaticBip::<u8, 2>::default();
    assert!(buffer.pop().is_none());
    buffer.reserve(1).copy_from_slice(&[4]);
    buffer.commit(1);
    assert_eq!(buffer.pop().copied(), Some(4));
    assert!(buffer.pop().is_none());
}

#[test]
fn pop_hands_out_writable_slot() {
    let mut buffer = StaticBip::<u8, 3>::default();
    buffer.reserve(3).copy_from_slice(&[1, 2, 3]);
    buffer.commit(3);
    *buffer.pop().unwrap() = 42;
    assert_eq!(buffer.read(), &[2, 3]);
    assert_eq!(buffer.committed(), 2);
}

#[test]
fn read_writes_in_place() {
    let mut buffer = StaticBip::<u8, 3>::default();
    buffer.reserve(2).copy_from_slice(&[1, 2]);
    buffer.commit(2);
    buffer.read()[1] = 9;
    assert_eq!(buffer.read(), &[1, 9]);
}

#[test]
fn clear_keeps_store_contents() {
    let mut buffer = StaticBip::<u8, 3>::default();
    buffer.reserve(3).copy_from_slice(&[1, 2, 3]);
    buffer.commit(3);
    buffer.clear();
    assert!(buffer.is_empty());
    assert_eq!(buffer.read().len(), 0);
    assert_eq!(buffer.reserve(3), &[1, 2, 3]);
}

#[test]
fn many_cycles_stay_within_capacity() {
    let mut buffer = StaticBip::<u32, 5>::default();
    let mut next: u32 = 0;
    for round in 0..200usize {
        let window = buffer.reserve_max();
        let n = window.len();
        for slot in window.iter_mut() {
            *slot = next;
            next += 1;
        }
        buffer.commit(n);
        assert!(buffer.committed() + buffer.reserved() <= buffer.capacity());
        let seen = buffer.read().len();
        buffer.decommit(seen.min(round % 3 + 1));
        assert!(buffer.committed() <= buffer.capacity());
    }
}

#[test]
fn many_pops_and_commits_stay_consistent() {
    let mut buffer = StaticBip::<u32, 4>::default();
    let mut written: u32 = 0;
    let mut popped: u32 = 0;
    for round in 0..300u32 {
        let window = buffer.reserve((round % 3 + 1) as usize);
        let n = window.len();
        for slot in window.iter_mut() {
            *slot = written;
            written += 1;
        }
        buffer.commit(n);
        if round % 2 == 0 {
            while let Some(v) = buffer.pop() {
                assert_eq!(*v, popped);
                popped += 1;
            }
        }
        assert!(buffer.committed() + buffer.reserved() <= buffer.capacity());
    }
}

#[test]
fn b_emptied_by_pops_is_recreated_at_window() {
    let mut buffer = StaticBip::<u8, 4>::default();
    buffer.reserve(4).copy_from_slice(&[1, 2, 3, 4]);
    buffer.commit(4);
    buffer.decommit(3);
    buffer.reserve(1).copy_from_slice(&[5]);
    buffer.commit(1);
    assert_eq!(buffer.pop().copied(), Some(4));
    assert_eq!(buffer.pop().copied(), Some(5));
    buffer.reserve(2).copy_from_slice(&[6, 7]);
    buffer.commit(2);
    buffer.reserve(1).copy_from_slice(&[8]);
    buffer.commit(1);
    assert_eq!(buffer.read(), &[6, 7, 8]);
    buffer.decommit(2);
    assert_eq!(buffer.reserve(4).len(), 2);
    buffer.reserve(4).copy_from_slice(&[9, 10]);
    buffer.commit(2);
    assert_eq!(buffer.read(), &[8]);
    assert_eq!(buffer.committed(), 3);
    buffer.decommit(1);
    assert_eq!(buffer.read(), &[9, 10]);
}
