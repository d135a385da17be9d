use std::sync::atomic::Ordering;
use sv2_framing::pool::{zeroed, BufferPool};
use sv2_framing::slice::{SharedState, Slice, Toggle};
use sv2_framing::slot::{
    count_in_use, is_in_use, lowest_free, plan_acquire, slot_mask, toggle_bits, INGORE_INDEX,
    MAX_SLOTS,
};

#[test]
fn slot_masks_run_from_the_top_bit() {
    assert_eq!(slot_mask(1), Some(0b1000_0000));
    assert_eq!(slot_mask(2), Some(0b0100_0000));
    assert_eq!(slot_mask(5), Some(0b0000_1000));
    assert_eq!(slot_mask(8), Some(0b0000_0001));
    assert_eq!(slot_mask(0), None);
    assert_eq!(slot_mask(9), None);
    assert_eq!(slot_mask(INGORE_INDEX), None);
}

#[test]
fn toggle_bits_flips_and_flips_back() {
    assert_eq!(toggle_bits(0b1010_0000, 0b0100_0000), Some(0b1110_0000));
    assert_eq!(toggle_bits(0b1110_0000, 0b0100_0000), Some(0b1010_0000));
}

#[test]
fn lowest_free_skips_slots_that_are_out() {
    assert_eq!(lowest_free(0b0000_0000, 8), Some(1));
    assert_eq!(lowest_free(0b1100_0000, 8), Some(3));
    assert_eq!(lowest_free(0b1101_1111, 8), Some(3));
    assert_eq!(lowest_free(0b1111_1111, 8), None);
    assert_eq!(lowest_free(0b1110_0000, 3), None);
    assert_eq!(lowest_free(0b1111_1110, 8), Some(8));
    assert_eq!(lowest_free(0, 0), None);
}

#[test]
fn plan_acquire_falls_back_when_too_long_or_full() {
    assert_eq!(plan_acquire(0b1000_0000, 4, 64, 64), Some(2));
    assert_eq!(plan_acquire(0b1000_0000, 4, 64, 65), None);
    assert_eq!(plan_acquire(0b1111_0000, 4, 64, 1), None);
    assert_eq!(plan_acquire(0, 4, 0, 0), Some(1));
}

#[test]
fn counting_slots_in_use() {
    assert_eq!(count_in_use(0), 0);
    assert_eq!(count_in_use(0b1000_0001), 2);
    assert_eq!(count_in_use(0xff), MAX_SLOTS);
    assert!(is_in_use(0b0010_0000, 3));
    assert!(!is_in_use(0b0010_0000, 4));
}

#[test]
fn shared_state_toggles_one_bit() {
    let state = SharedState::new();
    assert_eq!(state.load(Ordering::Relaxed), 0);
    state.toogle(1);
    assert_eq!(state.load(Ordering::Relaxed), 0b1000_0000);
    state.toogle(8);
    assert_eq!(state.load(Ordering::SeqCst), 0b1000_0001);
    state.toogle(INGORE_INDEX);
    assert_eq!(state.load(Ordering::Acquire), 0b1000_0001);
    state.toogle(1);
    assert_eq!(state.load(Ordering::Relaxed), 0b0000_0001);
}

#[test]
fn traced_toggle_reports_the_exchange() {
    let state = SharedState::new();
    assert_eq!(
        state.toogle_traced(2, 1),
        Some(Toggle { position: 2, mode: 1, before: 0, after: 0b0100_0000 })
    );
    assert_eq!(
        state.toogle_traced(7, 0),
        Some(Toggle { position: 7, mode: 0, before: 0b0100_0000, after: 0b0100_0010 })
    );
    assert_eq!(state.toogle_traced(INGORE_INDEX, 2), None);
    assert_eq!(
        state.toogle_traced(2, 0),
        Some(Toggle { position: 2, mode: 0, before: 0b0100_0010, after: 0b0000_0010 })
    );
    assert_eq!(state.load(Ordering::Relaxed), 0b0000_0010);
}

#[test]
fn shared_state_clones_share_the_mask() {
    let state = SharedState::default();
    let other = state.clone();
    other.toogle(4);
    assert_eq!(state.load(Ordering::Relaxed), 0b0001_0000);
}

#[test]
fn slice_from_vec_is_heap_backed() {
    let mut slice = Slice::from(vec![1u8, 2, 3]);
    assert_eq!(slice.index(), INGORE_INDEX);
    assert!(slice.is_heap_backed());
    assert_eq!(slice.len(), 3);
    assert_eq!(slice.as_ref(), &[1, 2, 3]);
    slice.as_mut()[1] = 9;
    assert_eq!(slice.to_vec(), vec![1, 9, 3]);
}

#[test]
fn zeroed_has_the_length_asked_for() {
    assert_eq!(zeroed(0), Vec::<u8>::new());
    assert_eq!(zeroed(5), vec![0u8; 5]);
}

#[test]
fn acquire_gives_zeroed_slices_in_slot_order() {
    let mut pool = BufferPool::new(3, 16);
    assert_eq!(pool.slots(), 3);
    assert_eq!(pool.slot_capacity(), 16);
    let a = pool.acquire(16);
    let b = pool.acquire(0);
    assert_eq!(a.index(), 1);
    assert_eq!(b.index(), 2);
    assert_eq!(a.as_ref(), &[0u8; 16]);
    assert_eq!(b.len(), 0);
    assert_eq!(pool.mask(), 0b1100_0000);
    assert_eq!(pool.slots_in_use(), 2);
}

#[test]
fn acquire_beyond_capacity_is_heap_backed() {
    let mut pool = BufferPool::new(8, 16);
    let big = pool.acquire(17);
    assert!(big.is_heap_backed());
    assert_eq!(big.len(), 17);
    assert_eq!(pool.mask(), 0);
}

#[test]
fn pool_of_eight_falls_back_and_reuses() {
    let mut pool = BufferPool::new(8, 32);
    let mut held: Vec<Slice> = Vec::new();
    for expected in 1u8..=8 {
        let slice = pool.acquire(32);
        assert_eq!(slice.index(), expected);
        held.push(slice);
    }
    assert_eq!(pool.mask(), 0xff);
    assert_eq!(pool.slots_in_use(), 8);
    let ninth = pool.acquire(32);
    assert!(ninth.is_heap_backed());
    assert_eq!(ninth.len(), 32);
    let tenth = pool.acquire(1);
    assert!(tenth.is_heap_backed());
    assert_eq!(pool.slots_in_use(), 8);
    let released = held.remove(4);
    assert_eq!(released.index(), 5);
    drop(released);
    assert_eq!(pool.mask(), 0b1111_0111);
    assert_eq!(pool.slots_in_use(), 7);
    let again = pool.acquire(8);
    assert_eq!(again.index(), 5);
    assert_eq!(pool.slots_in_use(), 8);
    drop(ninth);
    drop(tenth);
    assert_eq!(pool.mask(), 0xff);
    drop(held);
    assert_eq!(pool.mask(), 0b0000_1000);
    drop(again);
    assert_eq!(pool.mask(), 0);
}

#[test]
fn slots_in_use_never_exceed_the_slot_count() {
    let mut pool = BufferPool::new(3, 8);
    let mut held: Vec<Slice> = Vec::new();
    for round in 0usize..40 {
        if round % 3 == 2 && !held.is_empty() {
            held.remove(round % held.len());
        } else {
            held.push(pool.acquire(round % 10));
        }
        assert!(pool.slots_in_use() <= pool.slots());
        let pooled = held.iter().filter(|s| !s.is_heap_backed()).count();
        assert_eq!(pool.slots_in_use() as usize, pooled);
    }
}

#[test]
fn release_needs_no_access_to_the_pool() {
    let mut pool = BufferPool::new(2, 8);
    let a = pool.acquire(4);
    let b = pool.acquire(4);
    assert_eq!(pool.slots_in_use(), 2);
    let carried: Vec<Slice> = vec![a];
    drop(carried);
    assert_eq!(pool.mask(), 0b0100_0000);
    drop(b);
    assert_eq!(pool.mask(), 0);
}

#[test]
fn traced_acquire_reports_the_flip_of_its_slot() {
    let mut pool = BufferPool::new(2, 8);
    let (first, flip) = pool.acquire_traced(8, 1);
    assert_eq!(first.index(), 1);
    assert_eq!(flip, Some(Toggle { position: 1, mode: 1, before: 0, after: 0b1000_0000 }));
    let (second, flip) = pool.adopt_traced(vec![5, 6], 2);
    assert_eq!(second.index(), 2);
    assert_eq!(second.as_ref(), &[5, 6]);
    assert_eq!(
        flip,
        Some(Toggle { position: 2, mode: 2, before: 0b1000_0000, after: 0b1100_0000 })
    );
    let (third, flip) = pool.acquire_traced(1, 1);
    assert!(third.is_heap_backed());
    assert_eq!(flip, None);
    let (long, flip) = pool.acquire_traced(9, 1);
    assert!(long.is_heap_backed());
    assert_eq!(flip, None);
    drop(first);
    let (again, flip) = pool.acquire_traced(3, 0);
    assert_eq!(again.index(), 1);
    assert_eq!(
        flip,
        Some(Toggle { position: 1, mode: 0, before: 0b0100_0000, after: 0b1100_0000 })
    );
}

#[test]
fn adopt_keeps_the_bytes() {
    let mut pool = BufferPool::new(1, 4);
    let small = pool.adopt(vec![1, 2, 3]);
    assert_eq!(small.index(), 1);
    assert_eq!(small.as_ref(), &[1, 2, 3]);
    let large = pool.adopt(vec![0; 5]);
    assert!(large.is_heap_backed());
}

fn can_cross_threads<T: Send>() {}

#[test]
fn slices_and_frames_can_move_to_another_thread() {
    can_cross_threads::<Slice>();
    can_cross_threads::<SharedState>();
    can_cross_threads::<BufferPool>();
    can_cross_threads::<sv2_framing::frame::Frame>();
    can_cross_threads::<sv2_framing::decoder::Decoder>();
    can_cross_threads::<sv2_framing::encoder::Encoder>();
}
