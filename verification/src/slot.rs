//! Slot positions and the one byte mask that tracks which slots are out.
//!
//! A pool has up to eight slots, numbered 1 to 8. Slot 1 owns the highest bit
//! of the mask and slot 8 the lowest. A set bit means that the slot is checked
//! out. Everything here is a function of plain integers: the shared atomic
//! byte only ever takes values that these functions computed.

use vstd::prelude::*;

verus! {

/// The index of a buffer that no slot accounts for. Toggling it does nothing.
pub const INGORE_INDEX: u8 = 59;

/// The largest number of slots one mask can track.
pub const MAX_SLOTS: u8 = 8;

/// `position` names one of the eight trackable slots.
pub open spec fn valid_slot(position: u8) -> bool {
    1 <= position <= 8
}

/// The single bit that slot `position` owns.
pub open spec fn spec_slot_mask(position: u8) -> u8
    recommends
        valid_slot(position),
{
    0x80u8 >> ((position - 1) as u8)
}

/// Slot `position` is checked out in `mask`.
pub open spec fn in_use(mask: u8, position: u8) -> bool
    recommends
        valid_slot(position),
{
    mask & spec_slot_mask(position) != 0
}

/// `mask` with the bit of slot `position` flipped.
pub open spec fn toggled(mask: u8, position: u8) -> u8
    recommends
        valid_slot(position),
{
    mask ^ spec_slot_mask(position)
}

/// 1 if slot `position` is checked out, else 0.
pub open spec fn slot_weight(mask: u8, position: u8) -> nat {
    if in_use(mask, position) {
        1
    } else {
        0
    }
}

/// How many of the eight slots are checked out.
pub open spec fn in_use_count(mask: u8) -> nat {
    slot_weight(mask, 1) + slot_weight(mask, 2) + slot_weight(mask, 3) + slot_weight(mask, 4)
        + slot_weight(mask, 5) + slot_weight(mask, 6) + slot_weight(mask, 7) + slot_weight(mask, 8)
}

/// No slot beyond the first `slots` is checked out.
pub open spec fn within(mask: u8, slots: u8) -> bool {
    forall|q: u8| slots < q <= 8 ==> !in_use(mask, q)
}

/// `r` is the lowest free slot among the first `slots`, or `None` when all of
/// them are checked out.
pub open spec fn is_lowest_free(mask: u8, slots: u8, r: Option<u8>) -> bool {
    match r {
        Some(p) => 1 <= p <= slots && !in_use(mask, p) && forall|q: u8|
            1 <= q < p ==> in_use(mask, q),
        None => forall|q: u8| 1 <= q <= slots ==> in_use(mask, q),
    }
}

/// The first free slot at or after `from` among the first `slots`.
pub open spec fn lowest_free_from(mask: u8, from: int, slots: u8) -> Option<u8>
    decreases slots + 1 - from,
{
    if from < 1 || from > slots {
        None
    } else if !in_use(mask, from as u8) {
        Some(from as u8)
    } else {
        lowest_free_from(mask, from + 1, slots)
    }
}

/// The lowest free slot among the first `slots`, if there is one.
pub open spec fn spec_lowest_free(mask: u8, slots: u8) -> Option<u8> {
    lowest_free_from(mask, 1, slots)
}

/// The slot that an acquire of `len` bytes takes from a pool whose mask
/// reads `mask`: the lowest free one if `len` fits in a slot, else none.
pub open spec fn spec_plan_acquire(mask: u8, slots: u8, slot_capacity: usize, len: usize) -> Option<
    u8,
> {
    if len > slot_capacity {
        None
    } else {
        spec_lowest_free(mask, slots)
    }
}

/// The bit of a slot, or `None` for a position that names no slot.
pub fn slot_mask(position: u8) -> (r: Option<u8>)
    ensures
        valid_slot(position) ==> r == Some(spec_slot_mask(position)),
        !valid_slot(position) ==> r is None,
    opens_invariants none
    no_unwind
{
    let r: Option<u8> = match position {
        1 => Some(0b1000_0000u8),
        2 => Some(0b0100_0000u8),
        3 => Some(0b0010_0000u8),
        4 => Some(0b0001_0000u8),
        5 => Some(0b0000_1000u8),
        6 => Some(0b0000_0100u8),
        7 => Some(0b0000_0010u8),
        8 => Some(0b0000_0001u8),
        _ => None,
    };
    proof {
        lemma_slot_masks();
    }
    r
}

/// Flips the bits of `mask` in `state`. Always `Some`: a toggle cannot be
/// refused.
pub fn toggle_bits(state: u8, mask: u8) -> (r: Option<u8>)
    ensures
        r == Some(state ^ mask),
    opens_invariants none
    no_unwind
{
    Some(state ^ mask)
}

/// Whether slot `position` is checked out in `mask`.
pub fn is_in_use(mask: u8, position: u8) -> (r: bool)
    requires
        valid_slot(position),
    ensures
        r == in_use(mask, position),
{
    let bit: u8 = match slot_mask(position) {
        Some(b) => b,
        None => 0,
    };
    mask & bit != 0
}

/// The lowest free slot among the first `slots`.
pub fn lowest_free(mask: u8, slots: u8) -> (r: Option<u8>)
    requires
        slots <= MAX_SLOTS,
    ensures
        r == spec_lowest_free(mask, slots),
        is_lowest_free(mask, slots, r),
{
    proof {
        lemma_lowest_free_from(mask, 1, slots);
    }
    let mut p: u8 = 1;
    while p <= slots
        invariant
            1 <= p <= slots + 1,
            slots <= 8,
            forall|q: u8| 1 <= q < p ==> in_use(mask, q),
            lowest_free_from(mask, p as int, slots) == spec_lowest_free(mask, slots),
        decreases slots + 1 - p,
    {
        if !is_in_use(mask, p) {
            return Some(p);
        }
        p = p + 1;
    }
    None
}

/// How many of the eight slots are checked out in `mask`.
pub fn count_in_use(mask: u8) -> (r: u8)
    ensures
        r == in_use_count(mask),
        r <= 8,
{
    let mut n: u8 = 0;
    let mut p: u8 = 1;
    while p <= 8
        invariant
            1 <= p <= 9,
            n < p,
            n == (if p > 1 { slot_weight(mask, 1) } else { 0 })
                + (if p > 2 { slot_weight(mask, 2) } else { 0 })
                + (if p > 3 { slot_weight(mask, 3) } else { 0 })
                + (if p > 4 { slot_weight(mask, 4) } else { 0 })
                + (if p > 5 { slot_weight(mask, 5) } else { 0 })
                + (if p > 6 { slot_weight(mask, 6) } else { 0 })
                + (if p > 7 { slot_weight(mask, 7) } else { 0 })
                + (if p > 8 { slot_weight(mask, 8) } else { 0 }),
        decreases 9 - p,
    {
        if is_in_use(mask, p) {
            n = n + 1;
        }
        p = p + 1;
    }
    n
}

/// The slot that an acquire of `len` bytes takes when the mask reads `mask`.
///
/// It is the lowest free slot if `len` fits in a slot; otherwise, and when
/// every slot is out, there is none and the buffer comes from the heap.
pub fn plan_acquire(mask: u8, slots: u8, slot_capacity: usize, len: usize) -> (r: Option<u8>)
    requires
        slots <= MAX_SLOTS,
    ensures
        r == spec_plan_acquire(mask, slots, slot_capacity, len),
        len > slot_capacity ==> r is None,
        len <= slot_capacity ==> is_lowest_free(mask, slots, r),
{
    if len > slot_capacity {
        None
    } else {
        lowest_free(mask, slots)
    }
}

/// The eight masks, one bit each, highest first.
pub proof fn lemma_slot_masks()
    ensures
        spec_slot_mask(1) == 0x80,
        spec_slot_mask(2) == 0x40,
        spec_slot_mask(3) == 0x20,
        spec_slot_mask(4) == 0x10,
        spec_slot_mask(5) == 0x08,
        spec_slot_mask(6) == 0x04,
        spec_slot_mask(7) == 0x02,
        spec_slot_mask(8) == 0x01,
{
    assert(0x80u8 >> 0u8 == 0x80) by (bit_vector);
    assert(0x80u8 >> 1u8 == 0x40) by (bit_vector);
    assert(0x80u8 >> 2u8 == 0x20) by (bit_vector);
    assert(0x80u8 >> 3u8 == 0x10) by (bit_vector);
    assert(0x80u8 >> 4u8 == 0x08) by (bit_vector);
    assert(0x80u8 >> 5u8 == 0x04) by (bit_vector);
    assert(0x80u8 >> 6u8 == 0x02) by (bit_vector);
    assert(0x80u8 >> 7u8 == 0x01) by (bit_vector);
}

/// A toggle flips the slot it names and leaves every other slot as it was.
pub proof fn lemma_toggle_one_slot(mask: u8, position: u8, other: u8)
    requires
        valid_slot(position),
        valid_slot(other),
    ensures
        in_use(toggled(mask, position), position) == !in_use(mask, position),
        other != position ==> in_use(toggled(mask, position), other) == in_use(mask, other),
{
    let p: u8 = (position - 1) as u8;
    let o: u8 = (other - 1) as u8;
    assert(((mask ^ (0x80u8 >> p)) & (0x80u8 >> p) != 0) == !(mask & (0x80u8 >> p) != 0))
        by (bit_vector)
        requires
            p < 8,
    ;
    assert(o != p ==> ((mask ^ (0x80u8 >> p)) & (0x80u8 >> o) != 0) == (mask & (0x80u8 >> o)
        != 0)) by (bit_vector)
        requires
            p < 8,
            o < 8,
    ;
}

/// Two toggles of one slot give the mask back: what an acquire set, the
/// release clears, and nothing else has moved.
pub proof fn lemma_toggle_twice(mask: u8, position: u8)
    requires
        valid_slot(position),
    ensures
        toggled(toggled(mask, position), position) == mask,
{
    let b: u8 = spec_slot_mask(position);
    assert((mask ^ b) ^ b == mask) by (bit_vector);
}

/// Toggles of two different slots may come in either order.
pub proof fn lemma_toggles_commute(mask: u8, a: u8, b: u8)
    requires
        valid_slot(a),
        valid_slot(b),
    ensures
        toggled(toggled(mask, a), b) == toggled(toggled(mask, b), a),
{
    let x: u8 = spec_slot_mask(a);
    let y: u8 = spec_slot_mask(b);
    assert((mask ^ x) ^ y == (mask ^ y) ^ x) by (bit_vector);
}

/// A toggle moves the count of checked out slots by exactly one: up when the
/// slot was free, down when it was out.
pub proof fn lemma_toggle_count(mask: u8, position: u8)
    requires
        valid_slot(position),
    ensures
        !in_use(mask, position) ==> in_use_count(toggled(mask, position)) == in_use_count(mask)
            + 1,
        in_use(mask, position) ==> in_use_count(toggled(mask, position)) + 1 == in_use_count(
            mask,
        ),
{
    lemma_toggle_one_slot(mask, position, 1);
    lemma_toggle_one_slot(mask, position, 2);
    lemma_toggle_one_slot(mask, position, 3);
    lemma_toggle_one_slot(mask, position, 4);
    lemma_toggle_one_slot(mask, position, 5);
    lemma_toggle_one_slot(mask, position, 6);
    lemma_toggle_one_slot(mask, position, 7);
    lemma_toggle_one_slot(mask, position, 8);
}

/// With no slot out beyond the first `slots`, at most `slots` are out.
pub proof fn lemma_count_within(mask: u8, slots: u8)
    requires
        slots <= MAX_SLOTS,
        within(mask, slots),
    ensures
        in_use_count(mask) <= slots,
{
    assert(forall|q: u8| slots < q <= 8 ==> slot_weight(mask, q) == 0);
}

/// The empty mask has no slot out.
pub proof fn lemma_empty_mask(position: u8)
    requires
        valid_slot(position),
    ensures
        !in_use(0, position),
{
    let b: u8 = spec_slot_mask(position);
    assert(0u8 & b == 0) by (bit_vector);
}

/// Searching upwards from `from`, past slots that are all out, finds the
/// lowest free slot.
pub proof fn lemma_lowest_free_from(mask: u8, from: int, slots: u8)
    requires
        slots <= MAX_SLOTS,
        1 <= from <= slots + 1,
        forall|q: u8| 1 <= q < from ==> in_use(mask, q),
    ensures
        is_lowest_free(mask, slots, lowest_free_from(mask, from, slots)),
    decreases slots + 1 - from,
{
    if from <= slots && in_use(mask, from as u8) {
        lemma_lowest_free_from(mask, from + 1, slots);
    }
}

} // verus!
