//! A fixed set of buffer slots with a heap fallback.
//!
//! A pool has between one and eight slots of one capacity. An acquire that
//! fits takes the lowest free slot; one that does not fit, or that finds
//! every slot out, gets a buffer from the heap instead. Acquiring never
//! fails. A slot comes back when the slice that holds it is dropped.
//!
//! The pool itself has one owner, so acquires never race with each other.
//! Releases may come from any thread: they touch only the shared mask. A
//! slot is taken by a single atomic flip of its bit, and it is handed out
//! only if that flip found the bit free.
//!
//! A slot is a unit of account. The bytes of a slice are the slice's own,
//! whether a slot stands for them or not.

use crate::slice::{SharedState, Slice, Toggle};
use crate::slot::{
    count_in_use, in_use, in_use_count, is_in_use, lemma_count_within, lemma_lowest_free_from,
    lemma_toggle_count, lemma_toggle_one_slot, lemma_toggle_twice, plan_acquire,
    spec_plan_acquire, toggled, valid_slot, within, INGORE_INDEX, MAX_SLOTS,
};
use std::sync::atomic::Ordering;
use vstd::prelude::*;

verus! {

/// `len` zero bytes.
pub open spec fn zeros(len: nat) -> Seq<u8> {
    Seq::new(len, |i: int| 0u8)
}

/// A vector of `len` zero bytes.
pub fn zeroed(len: usize) -> (r: Vec<u8>)
    ensures
        r@ == zeros(len as nat),
{
    let mut out: Vec<u8> = Vec::new();
    let mut i: usize = 0;
    while i < len
        invariant
            i <= len,
            out@ == zeros(i as nat),
        decreases len - i,
    {
        out.push(0u8);
        i = i + 1;
    }
    out
}

/// The flip `t` took its slot: the bit of the slot was free before it and is
/// out after it, and the two masks differ in nothing else.
pub open spec fn taken_by(t: Toggle) -> bool {
    &&& valid_slot(t.position)
    &&& !in_use(t.before, t.position)
    &&& in_use(t.after, t.position)
    &&& t.after == toggled(t.before, t.position)
}

/// Up to eight reusable buffer slots of one capacity.
#[derive(Debug)]
pub struct BufferPool {
    shared_state: SharedState,
    slots: u8,
    slot_capacity: usize,
}

impl BufferPool {
    #[verifier::type_invariant]
    closed spec fn well_formed(self) -> bool {
        1 <= self.slots <= MAX_SLOTS
    }

    /// The number of slots.
    pub closed spec fn spec_slots(&self) -> u8 {
        self.slots
    }

    /// The number of bytes that fit in one slot.
    pub closed spec fn spec_slot_capacity(&self) -> usize {
        self.slot_capacity
    }

    /// A pool of `slots` free slots that hold `slot_capacity` bytes each.
    pub fn new(slots: u8, slot_capacity: usize) -> (r: BufferPool)
        requires
            1 <= slots <= MAX_SLOTS,
        ensures
            r.spec_slots() == slots,
            r.spec_slot_capacity() == slot_capacity,
    {
        BufferPool { shared_state: SharedState::new(), slots, slot_capacity }
    }

    /// The number of slots.
    pub fn slots(&self) -> (r: u8)
        ensures
            r == self.spec_slots(),
            1 <= r <= MAX_SLOTS,
    {
        proof {
            use_type_invariant(self);
        }
        self.slots
    }

    /// The number of bytes that fit in one slot.
    pub fn slot_capacity(&self) -> (r: usize)
        ensures
            r == self.spec_slot_capacity(),
    {
        self.slot_capacity
    }

    /// The mask of checked out slots as it reads at this moment.
    pub fn mask(&self) -> u8 {
        self.shared_state.load(Ordering::Relaxed)
    }

    /// How many slots are checked out at this moment. Slices dropped on
    /// other threads may lower the number at any time.
    pub fn slots_in_use(&self) -> (r: u8)
        ensures
            r <= 8,
    {
        count_in_use(self.mask())
    }

    /// A slice over `bytes` that stands for slot `slot`, or a heap-backed one
    /// when `slot` is `None`. Checks the slot out and reports the flip.
    ///
    /// Should the slot turn out not to have been free at the moment of the
    /// flip, the flip is undone and the slice is heap-backed.
    fn issue(&mut self, slot: Option<u8>, bytes: Vec<u8>, mode: u8) -> (r: (Slice, Option<Toggle>))
        requires
            slot is Some ==> 1 <= slot.unwrap() <= old(self).spec_slots(),
        ensures
            r.0@ == bytes@,
            match r.1 {
                Some(t) => slot == Some(t.position) && r.0.spec_index() == t.position && t.mode
                    == mode && taken_by(t),
                None => r.0.spec_heap_backed(),
            },
            final(self).spec_slots() == old(self).spec_slots(),
            final(self).spec_slot_capacity() == old(self).spec_slot_capacity(),
    {
        proof {
            use_type_invariant(&*self);
        }
        match slot {
            Some(p) => match self.shared_state.toogle_traced(p, mode) {
                Some(t) => {
                    if is_in_use(t.before, p) {
                        self.shared_state.toogle(p);
                        (Slice::from_vec(bytes), None)
                    } else {
                        proof {
                            lemma_toggle_one_slot(t.before, p, p);
                        }
                        (Slice::in_slot(bytes, p, self.shared_state.clone()), Some(t))
                    }
                },
                None => (Slice::from_vec(bytes), None),
            },
            None => (Slice::from_vec(bytes), None),
        }
    }

    /// Puts `bytes` under the pool's accounting without copying them, and
    /// reports the flip of the slot's bit if a slot was taken. `mode` is
    /// noted in the report.
    ///
    /// The mask is read once, and [`plan_acquire`] decides from that reading:
    /// the lowest free slot if the bytes fit in a slot, else the heap.
    /// Whatever the reading was, a usable slice comes back; one that stands
    /// for a slot stands for one of this pool's, whose bit was free before
    /// the flip and is out after it; and bytes that do not fit in a slot are
    /// heap-backed.
    pub fn adopt_traced(&mut self, bytes: Vec<u8>, mode: u8) -> (r: (Slice, Option<Toggle>))
        ensures
            r.0@ == bytes@,
            match r.1 {
                Some(t) => {
                    &&& r.0.spec_index() == t.position
                    &&& 1 <= t.position <= old(self).spec_slots()
                    &&& bytes@.len() <= old(self).spec_slot_capacity()
                    &&& t.mode == mode
                    &&& taken_by(t)
                },
                None => r.0.spec_heap_backed(),
            },
            final(self).spec_slots() == old(self).spec_slots(),
            final(self).spec_slot_capacity() == old(self).spec_slot_capacity(),
    {
        proof {
            use_type_invariant(&*self);
        }
        let mask = self.mask();
        let slot = plan_acquire(mask, self.slots, self.slot_capacity, bytes.len());
        self.issue(slot, bytes, mode)
    }

    /// Puts `bytes` under the pool's accounting without copying them.
    ///
    /// The slot is chosen as in [`BufferPool::adopt_traced`].
    pub fn adopt(&mut self, bytes: Vec<u8>) -> (r: Slice)
        ensures
            r@ == bytes@,
            r.spec_heap_backed() || 1 <= r.spec_index() <= old(self).spec_slots(),
            bytes@.len() > old(self).spec_slot_capacity() ==> r.spec_heap_backed(),
            final(self).spec_slots() == old(self).spec_slots(),
            final(self).spec_slot_capacity() == old(self).spec_slot_capacity(),
    {
        self.adopt_traced(bytes, 0).0
    }

    /// Hands out a slice of exactly `len` zero bytes, and reports the flip of
    /// the slot's bit if a slot was taken. `mode` is noted in the report.
    ///
    /// The slot is chosen as in [`BufferPool::adopt_traced`], for `len`
    /// bytes.
    pub fn acquire_traced(&mut self, len: usize, mode: u8) -> (r: (Slice, Option<Toggle>))
        ensures
            r.0@ == zeros(len as nat),
            match r.1 {
                Some(t) => {
                    &&& r.0.spec_index() == t.position
                    &&& 1 <= t.position <= old(self).spec_slots()
                    &&& len <= old(self).spec_slot_capacity()
                    &&& t.mode == mode
                    &&& taken_by(t)
                },
                None => r.0.spec_heap_backed(),
            },
            final(self).spec_slots() == old(self).spec_slots(),
            final(self).spec_slot_capacity() == old(self).spec_slot_capacity(),
    {
        self.adopt_traced(zeroed(len), mode)
    }

    /// Hands out a slice of exactly `len` zero bytes. This never fails: a
    /// request that no slot can serve is served from the heap.
    ///
    /// The slot is chosen as in [`BufferPool::adopt_traced`], for `len`
    /// bytes.
    pub fn acquire(&mut self, len: usize) -> (r: Slice)
        ensures
            r@ == zeros(len as nat),
            r@.len() == len,
            r.spec_heap_backed() || 1 <= r.spec_index() <= old(self).spec_slots(),
            len > old(self).spec_slot_capacity() ==> r.spec_heap_backed(),
            final(self).spec_slots() == old(self).spec_slots(),
            final(self).spec_slot_capacity() == old(self).spec_slot_capacity(),
    {
        self.acquire_traced(len, 0).0
    }
}

/// One operation on a pool: a request for `len` bytes, or the end of a slice
/// that carried `index`.
pub enum PoolOp {
    Acquire { len: usize },
    Release { index: u8 },
}

/// The state of a pool as plain values: its shape and its mask.
pub struct PoolModel {
    pub slots: u8,
    pub slot_capacity: usize,
    pub mask: u8,
}

impl PoolModel {
    /// A pool of that shape with every slot free.
    pub open spec fn fresh(slots: u8, slot_capacity: usize) -> PoolModel {
        PoolModel { slots, slot_capacity, mask: 0 }
    }

    /// Between one and eight slots, and no bit set beyond them.
    pub open spec fn valid(self) -> bool {
        &&& 1 <= self.slots <= MAX_SLOTS
        &&& within(self.mask, self.slots)
    }

    /// How many slots are checked out.
    pub open spec fn held(self) -> nat {
        in_use_count(self.mask)
    }

    /// The slot that a request for `len` bytes takes, `None` for the heap.
    pub open spec fn grant(self, len: usize) -> Option<u8> {
        spec_plan_acquire(self.mask, self.slots, self.slot_capacity, len)
    }

    /// `op` can happen in this state. Every request can. A slice can only
    /// end if it exists: it is heap-backed, or its slot is one of this
    /// pool's and is checked out.
    pub open spec fn admits(self, op: PoolOp) -> bool {
        match op {
            PoolOp::Acquire { len } => true,
            PoolOp::Release { index } => index == INGORE_INDEX || (1 <= index <= self.slots
                && in_use(self.mask, index)),
        }
    }

    /// The state after `op`.
    pub open spec fn step(self, op: PoolOp) -> PoolModel {
        match op {
            PoolOp::Acquire { len } => match self.grant(len) {
                Some(p) => PoolModel { mask: toggled(self.mask, p), ..self },
                None => self,
            },
            PoolOp::Release { index } => if valid_slot(index) {
                PoolModel { mask: toggled(self.mask, index), ..self }
            } else {
                self
            },
        }
    }

    /// Every operation of `ops` can happen when its turn comes.
    pub open spec fn admits_all(self, ops: Seq<PoolOp>) -> bool
        decreases ops.len(),
    {
        ops.len() == 0 || (self.admits(ops[0]) && self.step(ops[0]).admits_all(
            ops.subrange(1, ops.len() as int),
        ))
    }

    /// The state after all of `ops`, first to last.
    pub open spec fn run(self, ops: Seq<PoolOp>) -> PoolModel
        decreases ops.len(),
    {
        if ops.len() == 0 {
            self
        } else {
            self.step(ops[0]).run(ops.subrange(1, ops.len() as int))
        }
    }
}

/// A granted slot was free, is one of the pool's, and is the lowest such.
pub proof fn lemma_grant(model: PoolModel, len: usize)
    requires
        model.valid(),
    ensures
        match model.grant(len) {
            Some(p) => len <= model.slot_capacity && 1 <= p <= model.slots && !in_use(
                model.mask,
                p,
            ) && forall|q: u8| 1 <= q < p ==> in_use(model.mask, q),
            None => len > model.slot_capacity || forall|q: u8|
                1 <= q <= model.slots ==> in_use(model.mask, q),
        },
{
    lemma_lowest_free_from(model.mask, 1, model.slots);
}

/// A request changes one bit from free to out, or none at all; a slot that is
/// out is never granted again while its slice lives.
pub proof fn lemma_acquire_step(model: PoolModel, len: usize, other: u8)
    requires
        model.valid(),
        valid_slot(other),
    ensures
        model.step(PoolOp::Acquire { len }).valid(),
        in_use(model.mask, other) ==> model.grant(len) != Some(other),
        model.grant(len) == Some(other) ==> in_use(
            model.step(PoolOp::Acquire { len }).mask,
            other,
        ),
        model.grant(len) != Some(other) ==> in_use(
            model.step(PoolOp::Acquire { len }).mask,
            other,
        ) == in_use(model.mask, other),
        model.grant(len) is Some ==> model.step(PoolOp::Acquire { len }).held() == model.held()
            + 1,
        model.grant(len) is None ==> model.step(PoolOp::Acquire { len }) == model,
{
    lemma_grant(model, len);
    match model.grant(len) {
        Some(p) => {
            lemma_toggle_one_slot(model.mask, p, other);
            lemma_toggle_count(model.mask, p);
            assert forall|q: u8| model.slots < q <= 8 implies !in_use(toggled(model.mask, p), q) by {
                lemma_toggle_one_slot(model.mask, p, q);
            }
        },
        None => {},
    }
}

/// The end of a slice changes the bit of its slot from out to free and no
/// other; the end of a heap-backed slice changes nothing.
pub proof fn lemma_release_step(model: PoolModel, index: u8, other: u8)
    requires
        model.valid(),
        model.admits(PoolOp::Release { index }),
        valid_slot(other),
    ensures
        model.step(PoolOp::Release { index }).valid(),
        index == INGORE_INDEX ==> model.step(PoolOp::Release { index }) == model,
        index == other ==> !in_use(model.step(PoolOp::Release { index }).mask, other),
        index != other ==> in_use(model.step(PoolOp::Release { index }).mask, other) == in_use(
            model.mask,
            other,
        ),
        index != INGORE_INDEX ==> model.step(PoolOp::Release { index }).held() + 1
            == model.held(),
{
    if index != INGORE_INDEX {
        lemma_toggle_one_slot(model.mask, index, other);
        lemma_toggle_count(model.mask, index);
        assert forall|q: u8| model.slots < q <= 8 implies !in_use(toggled(model.mask, index), q) by {
            lemma_toggle_one_slot(model.mask, index, q);
        }
    }
}

/// What an acquire reports of a slot it took is a step that keeps the pool
/// within its slots: one more slot is out than before, the one that was
/// taken, and still no more than the pool has.
pub proof fn lemma_reported_flip(model: PoolModel, t: Toggle)
    requires
        model.valid(),
        model.mask == t.before,
        1 <= t.position <= model.slots,
        taken_by(t),
    ensures
        (PoolModel { mask: t.after, ..model }).valid(),
        (PoolModel { mask: t.after, ..model }).held() == model.held() + 1,
        (PoolModel { mask: t.after, ..model }).held() <= model.slots,
{
    lemma_toggle_count(t.before, t.position);
    assert forall|q: u8| model.slots < q <= 8 implies !in_use(t.after, q) by {
        lemma_toggle_one_slot(t.before, t.position, q);
    }
    lemma_count_within(t.after, model.slots);
}

/// A slice that is acquired and then dropped leaves the mask as it found it:
/// its slot's bit was flipped twice, and no other.
pub proof fn lemma_acquire_then_release(model: PoolModel, len: usize)
    requires
        model.valid(),
    ensures
        ({
            let index = match model.grant(len) {
                Some(p) => p,
                None => INGORE_INDEX,
            };
            let after = model.step(PoolOp::Acquire { len });
            after.admits(PoolOp::Release { index }) && after.step(PoolOp::Release { index })
                == model
        }),
{
    lemma_grant(model, len);
    match model.grant(len) {
        Some(p) => {
            lemma_toggle_one_slot(model.mask, p, p);
            lemma_toggle_twice(model.mask, p);
        },
        None => {},
    }
}

/// Whatever is acquired and released, in whatever order, the pool never has
/// more slots out than it has slots.
pub proof fn lemma_pool_conservation(model: PoolModel, ops: Seq<PoolOp>)
    requires
        model.valid(),
        model.admits_all(ops),
    ensures
        model.run(ops).valid(),
        model.run(ops).held() <= model.slots,
        model.run(ops).slots == model.slots,
        model.run(ops).slot_capacity == model.slot_capacity,
    decreases ops.len(),
{
    if ops.len() == 0 {
        lemma_count_within(model.mask, model.slots);
    } else {
        match ops[0] {
            PoolOp::Acquire { len } => {
                lemma_acquire_step(model, len, 1);
            },
            PoolOp::Release { index } => {
                lemma_release_step(model, index, 1);
            },
        }
        lemma_pool_conservation(model.step(ops[0]), ops.subrange(1, ops.len() as int));
    }
}

/// Once every slot is out, each further request is served from the heap and
/// leaves the pool as it is, however many follow.
pub proof fn lemma_exhausted_pool_falls_back(model: PoolModel, len: usize)
    requires
        model.valid(),
        model.held() == model.slots,
    ensures
        model.grant(len) is None,
        model.step(PoolOp::Acquire { len }) == model,
{
    lemma_grant(model, len);
    match model.grant(len) {
        Some(p) => {
            lemma_toggle_one_slot(model.mask, p, p);
            lemma_toggle_count(model.mask, p);
            assert forall|q: u8| model.slots < q <= 8 implies !in_use(toggled(model.mask, p), q) by {
                lemma_toggle_one_slot(model.mask, p, q);
            }
            lemma_count_within(toggled(model.mask, p), model.slots);
        },
        None => {},
    }
}

/// A fresh pool is valid and has no slot out.
pub proof fn lemma_fresh_pool(slots: u8, slot_capacity: usize)
    requires
        1 <= slots <= MAX_SLOTS,
    ensures
        PoolModel::fresh(slots, slot_capacity).valid(),
        PoolModel::fresh(slots, slot_capacity).held() == 0,
{
    assert forall|q: u8| 1 <= q <= 8 implies !in_use(0, q) by {
        crate::slot::lemma_empty_mask(q);
    }
}

} // verus!
