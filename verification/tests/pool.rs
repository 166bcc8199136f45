use frame_pipeline::pool::{grow, select_slot, BufferPool, BUFFER_COUNT};
use std::sync::Arc;

#[test]
fn new_pool_is_empty_and_starts_at_first_slot() {
    let pool = BufferPool::new();
    assert_eq!(pool.cursor(), 0);
    for idx in 0..BUFFER_COUNT {
        let entry = pool.entry(idx).expect("slot exists");
        assert_eq!(entry.data.len(), 0);
        assert_eq!(entry.width, 0);
        assert_eq!(entry.height, 0);
    }
    assert!(pool.entry(BUFFER_COUNT).is_none());
}

#[test]
fn default_pool_is_a_new_pool() {
    let pool = BufferPool::default();
    assert_eq!(pool.cursor(), 0);
    assert_eq!(pool.entry(0).unwrap().data.len(), 0);
}

#[test]
fn four_acquisitions_without_release_exhaust_a_pool_of_three() {
    let mut pool = BufferPool::new();
    let mut held: Vec<Arc<Vec<u8>>> = Vec::new();
    let mut indices: Vec<usize> = Vec::new();
    for _ in 0..3 {
        let idx = match pool.acquire_for_write(4, 4) {
            Some((idx, _)) => idx,
            None => panic!("a free pool must hand out a buffer"),
        };
        indices.push(idx);
        held.push(pool.get_buffer_arc(idx).expect("slot exists"));
    }
    assert_eq!(indices, vec![0, 1, 2]);
    assert!(pool.acquire_for_write(4, 4).is_none());
    assert_eq!(held.len(), 3);
}

#[test]
fn exhausted_pool_is_left_unchanged() {
    let mut pool = BufferPool::new();
    let mut held: Vec<Arc<Vec<u8>>> = Vec::new();
    for _ in 0..3 {
        let idx = pool.acquire_for_write(2, 2).map(|(idx, _)| idx).unwrap();
        held.push(pool.get_buffer_arc(idx).unwrap());
    }
    let cursor = pool.cursor();
    assert!(pool.acquire_for_write(8, 8).is_none());
    assert_eq!(pool.cursor(), cursor);
    for idx in 0..BUFFER_COUNT {
        let entry = pool.entry(idx).unwrap();
        assert_eq!(entry.data.len(), 16);
        assert_eq!((entry.width, entry.height), (2, 2));
    }
}

#[test]
fn acquisition_succeeds_while_a_slot_is_spare() {
    let mut pool = BufferPool::new();
    let a = pool.acquire_for_write(1, 1).map(|(idx, _)| idx).unwrap();
    let held_a = pool.get_buffer_arc(a).unwrap();
    let b = pool.acquire_for_write(1, 1).map(|(idx, _)| idx).unwrap();
    let held_b = pool.get_buffer_arc(b).unwrap();
    for _ in 0..10 {
        let c = pool.acquire_for_write(1, 1).map(|(idx, _)| idx);
        assert_eq!(c, Some(2));
    }
    drop(held_a);
    drop(held_b);
}

#[test]
fn released_slot_is_handed_out_again() {
    let mut pool = BufferPool::new();
    let mut held: Vec<Arc<Vec<u8>>> = Vec::new();
    for _ in 0..3 {
        let idx = pool.acquire_for_write(1, 1).map(|(idx, _)| idx).unwrap();
        held.push(pool.get_buffer_arc(idx).unwrap());
    }
    assert!(pool.acquire_for_write(1, 1).is_none());
    let middle = held.remove(1);
    drop(middle);
    assert_eq!(pool.acquire_for_write(1, 1).map(|(idx, _)| idx), Some(1));
    assert_eq!(pool.cursor(), 2);
}

#[test]
fn cursor_moves_past_the_slot_taken() {
    let mut pool = BufferPool::new();
    assert_eq!(pool.acquire_for_write(1, 1).map(|(idx, _)| idx), Some(0));
    assert_eq!(pool.cursor(), 1);
    assert_eq!(pool.acquire_for_write(1, 1).map(|(idx, _)| idx), Some(1));
    assert_eq!(pool.cursor(), 2);
    assert_eq!(pool.acquire_for_write(1, 1).map(|(idx, _)| idx), Some(2));
    assert_eq!(pool.cursor(), 0);
}

#[test]
fn buffer_grows_to_the_frame_and_never_shrinks() {
    let mut pool = BufferPool::new();
    {
        let (idx, buf) = pool.acquire_for_write(3, 2).unwrap();
        assert_eq!(idx, 0);
        assert_eq!(buf.len(), 24);
        assert!(buf.iter().all(|b| *b == 0));
        buf[5] = 9;
    }
    assert_eq!(pool.claim(0, 1, 1).map(|buf| buf.len()), Some(24));
    let entry = pool.entry(0).unwrap();
    assert_eq!((entry.width, entry.height), (1, 1));
    assert_eq!(entry.data[5], 9);
    assert_eq!(pool.claim(0, 4, 2).map(|buf| buf.len()), Some(32));
    let entry = pool.entry(0).unwrap();
    assert_eq!(entry.data[5], 9);
    assert!(entry.data[24..].iter().all(|b| *b == 0));
}

#[test]
fn claim_of_a_held_slot_changes_nothing() {
    let mut pool = BufferPool::new();
    let idx = pool.acquire_for_write(2, 1).map(|(idx, _)| idx).unwrap();
    let held = pool.get_buffer_arc(idx).unwrap();
    let cursor = pool.cursor();
    assert!(pool.claim(idx, 5, 5).is_none());
    assert_eq!(pool.cursor(), cursor);
    let entry = pool.entry(idx).unwrap();
    assert_eq!(entry.data.len(), 8);
    assert_eq!((entry.width, entry.height), (2, 1));
    drop(held);
    assert!(pool.claim(idx, 5, 5).is_some());
}

#[test]
fn probe_tells_which_slots_are_held() {
    let mut pool = BufferPool::new();
    assert_eq!(pool.probe(), [true, true, true]);
    let held = pool.get_buffer_arc(1).unwrap();
    assert_eq!(pool.probe(), [true, false, true]);
    drop(held);
    assert_eq!(pool.probe(), [true, true, true]);
}

#[test]
fn weak_reference_keeps_a_slot_busy() {
    let mut pool = BufferPool::new();
    let strong = pool.get_buffer_arc(0).unwrap();
    let weak = Arc::downgrade(&strong);
    drop(strong);
    assert_eq!(pool.probe(), [false, true, true]);
    assert_eq!(pool.acquire_for_write(1, 1).map(|(idx, _)| idx), Some(1));
    drop(weak);
    assert_eq!(pool.probe(), [true, true, true]);
}

#[test]
fn get_buffer_arc_shares_the_slot_bytes() {
    let mut pool = BufferPool::new();
    {
        let (idx, buf) = pool.acquire_for_write(1, 2).unwrap();
        assert_eq!(idx, 0);
        buf.copy_from_slice(&[1, 2, 3, 4, 5, 6, 7, 8]);
    }
    let shared = pool.get_buffer_arc(0).unwrap();
    assert_eq!(*shared, vec![1, 2, 3, 4, 5, 6, 7, 8]);
    assert!(Arc::ptr_eq(&shared, &pool.entry(0).unwrap().data));
    assert_eq!(Arc::strong_count(&shared), 2);
}

#[test]
fn get_buffer_arc_of_a_missing_slot_is_nothing() {
    let pool = BufferPool::new();
    assert!(pool.get_buffer_arc(3).is_none());
    assert!(pool.get_buffer_arc(usize::MAX).is_none());
    assert!(pool.get_buffer_arc(2).is_some());
}

#[test]
fn pattern_written_to_a_slot_is_read_back_unchanged() {
    let mut pool = BufferPool::new();
    let pattern: Vec<u8> = (0..64u32).map(|i| (i * 7 + 3) as u8).collect();
    let idx = {
        let (idx, buf) = pool.acquire_for_write(4, 4).unwrap();
        buf.copy_from_slice(&pattern);
        idx
    };
    let shared = pool.get_buffer_arc(idx).unwrap();
    for round in 0..4u8 {
        let (other, buf) = pool.acquire_for_write(4, 4).unwrap();
        assert_ne!(other, idx);
        for byte in buf.iter_mut() {
            *byte = 0xa0 + round;
        }
    }
    assert_eq!(*shared, pattern);
    assert_eq!(*pool.entry(idx).unwrap().data, pattern);
}

#[test]
fn select_slot_takes_the_first_free_slot_from_the_cursor() {
    assert_eq!(select_slot(0, &[true, true, true]), Some(0));
    assert_eq!(select_slot(1, &[true, true, true]), Some(1));
    assert_eq!(select_slot(2, &[true, true, true]), Some(2));
    assert_eq!(select_slot(0, &[false, true, true]), Some(1));
    assert_eq!(select_slot(0, &[false, false, true]), Some(2));
    assert_eq!(select_slot(1, &[true, false, false]), Some(0));
    assert_eq!(select_slot(2, &[true, true, false]), Some(0));
    assert_eq!(select_slot(2, &[false, true, false]), Some(1));
}

#[test]
fn select_slot_finds_nothing_when_every_slot_is_held() {
    for cursor in 0..BUFFER_COUNT {
        assert_eq!(select_slot(cursor, &[false, false, false]), None);
    }
}

#[test]
fn select_slot_succeeds_with_at_most_two_held() {
    for cursor in 0..BUFFER_COUNT {
        for mask in 1..8u8 {
            let free = [mask & 1 != 0, mask & 2 != 0, mask & 4 != 0];
            let chosen = select_slot(cursor, &free).expect("a spare slot is found");
            assert!(free[chosen]);
        }
    }
}

#[test]
fn select_slot_wraps_a_cursor_beyond_the_last_slot() {
    assert_eq!(select_slot(3, &[true, true, true]), Some(0));
    assert_eq!(select_slot(4, &[true, true, true]), Some(1));
    assert_eq!(select_slot(5, &[true, false, true]), Some(2));
    assert_eq!(select_slot(usize::MAX, &[true, true, true]), Some(usize::MAX % 3));
}

#[test]
fn claim_of_a_missing_slot_is_nothing() {
    let mut pool = BufferPool::new();
    assert!(pool.claim(3, 1, 1).is_none());
    assert!(pool.claim(usize::MAX, 1, 1).is_none());
    assert_eq!(pool.cursor(), 0);
}

#[test]
fn no_buffer_for_impossible_dimensions() {
    let mut pool = BufferPool::new();
    assert!(pool.acquire_for_write(-1, 1).is_none());
    assert!(pool.acquire_for_write(1, -1).is_none());
    assert!(pool.acquire_for_write(i32::MAX, 2).is_none());
    assert!(pool.claim(0, 0x2000_0000, 1).is_none());
    assert!(pool.acquire_for_write(0x2000_0000, 1).is_none());
    assert_eq!(pool.cursor(), 0);
    assert_eq!(pool.entry(0).unwrap().data.len(), 0);
    assert_eq!(pool.acquire_for_write(0, 0).map(|(idx, buf)| (idx, buf.len())), Some((0, 0)));
}

#[test]
fn acquire_among_takes_the_first_slot_seen_free() {
    let mut pool = BufferPool::new();
    assert_eq!(pool.acquire_among(&[false, true, true], 1, 1).map(|(idx, _)| idx), Some(1));
    assert_eq!(pool.cursor(), 2);
    assert_eq!(pool.acquire_among(&[true, true, false], 1, 1).map(|(idx, _)| idx), Some(0));
    assert_eq!(pool.cursor(), 1);
    assert_eq!(pool.acquire_among(&[true, false, false], 2, 2).map(|(idx, buf)| (idx, buf.len())), Some((0, 16)));
}

#[test]
fn acquire_among_gives_nothing_when_no_slot_was_seen_free() {
    let mut pool = BufferPool::new();
    assert!(pool.acquire_among(&[false, false, false], 1, 1).is_none());
    assert_eq!(pool.cursor(), 0);
    assert_eq!(pool.entry(0).unwrap().data.len(), 0);
}

#[test]
fn acquire_among_leaves_a_holder_its_bytes() {
    let mut pool = BufferPool::new();
    {
        let (idx, buf) = pool.acquire_among(&[true, true, true], 1, 1).unwrap();
        assert_eq!(idx, 0);
        buf.copy_from_slice(&[1, 2, 3, 4]);
    }
    let held = pool.get_buffer_arc(0).unwrap();
    {
        let (idx, buf) = pool.acquire_among(&[true, false, false], 1, 2).unwrap();
        assert_eq!(idx, 0);
        assert_eq!(*buf, vec![1, 2, 3, 4, 0, 0, 0, 0]);
        buf[0] = 9;
    }
    assert_eq!(*held, vec![1, 2, 3, 4]);
    assert_eq!(*pool.entry(0).unwrap().data, vec![9, 2, 3, 4, 0, 0, 0, 0]);
    assert!(!Arc::ptr_eq(&held, &pool.entry(0).unwrap().data));
}

#[test]
fn acquire_among_writes_a_free_slot_in_place() {
    let mut pool = BufferPool::new();
    pool.acquire_among(&[true, true, true], 4, 4).unwrap();
    let before = pool.entry(0).unwrap().data.as_ptr();
    let seen = pool.probe();
    let (idx, buf) = pool.acquire_among(&[seen[0], false, false], 2, 2).unwrap();
    assert_eq!(idx, 0);
    assert_eq!(buf.as_ptr(), before);
}

#[test]
fn acquire_among_succeeds_exactly_when_a_slot_is_seen_free() {
    for mask in 0..8u8 {
        let free = [mask & 1 != 0, mask & 2 != 0, mask & 4 != 0];
        let mut pool = BufferPool::new();
        let first = free.iter().position(|f| *f);
        assert_eq!(pool.acquire_among(&free, 3, 3).map(|(idx, _)| idx), first);
        assert!(pool.acquire_among(&free, -3, 3).is_none());
    }
}

#[test]
fn acquisition_writes_a_free_slot_in_place() {
    let mut pool = BufferPool::new();
    pool.acquire_for_write(4, 4).unwrap();
    pool.acquire_for_write(4, 4).unwrap();
    pool.acquire_for_write(4, 4).unwrap();
    let before = pool.entry(0).unwrap().data.as_ptr();
    let (idx, buf) = pool.acquire_for_write(2, 2).unwrap();
    assert_eq!(idx, 0);
    assert_eq!(buf.as_ptr(), before);
}

#[test]
fn four_acquisitions_with_nothing_held_go_round() {
    let mut pool = BufferPool::new();
    let taken: Vec<Option<usize>> =
        (0..4).map(|_| pool.acquire_for_write(1, 1).map(|(idx, _)| idx)).collect();
    assert_eq!(taken, vec![Some(0), Some(1), Some(2), Some(0)]);
}

#[test]
fn frame_without_rows_takes_a_slot_whatever_its_width() {
    let mut pool = BufferPool::new();
    assert_eq!(pool.acquire_for_write(0x3000_0000, 0).map(|(idx, buf)| (idx, buf.len())), Some((0, 0)));
    assert_eq!(pool.acquire_for_write(i32::MAX, 0).map(|(idx, buf)| (idx, buf.len())), Some((1, 0)));
    assert_eq!(pool.acquire_for_write(0, i32::MAX).map(|(idx, buf)| (idx, buf.len())), Some((2, 0)));
    assert_eq!(pool.claim(0, 0x3000_0000, 0).map(|buf| buf.len()), Some(0));
    let entry = pool.entry(0).unwrap();
    assert_eq!((entry.width, entry.height), (0x3000_0000, 0));
}

#[test]
fn grow_adds_zeros_and_keeps_what_was_there() {
    let mut buffer = vec![7u8, 8, 9];
    grow(&mut buffer, 5);
    assert_eq!(buffer, vec![7, 8, 9, 0, 0]);
    grow(&mut buffer, 5);
    assert_eq!(buffer, vec![7, 8, 9, 0, 0]);
    grow(&mut buffer, 2);
    assert_eq!(buffer, vec![7, 8, 9, 0, 0]);
    grow(&mut buffer, 0);
    assert_eq!(buffer, vec![7, 8, 9, 0, 0]);
    let mut empty: Vec<u8> = Vec::new();
    grow(&mut empty, 0);
    assert!(empty.is_empty());
    grow(&mut empty, 4);
    assert_eq!(empty, vec![0; 4]);
}
