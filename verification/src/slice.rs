//! Byte buffers that a slot of a pool accounts for, and the mask they share.
//!
//! A [`Slice`] owns its bytes. It carries the position of the slot that was
//! checked out for it, or [`INGORE_INDEX`] when its bytes came from the heap
//! and no slot stands for them. When a slice goes out of scope its slot is
//! handed back: the bit of that slot in the shared mask is flipped once more.

use crate::slot::{slot_mask, toggle_bits, toggled, valid_slot, INGORE_INDEX};
use std::sync::atomic::{AtomicU8, Ordering};
use std::sync::Arc;
use vstd::prelude::*;

verus! {

/// Flips the bits of `mask` in the shared byte.
///
/// Calls `AtomicU8::fetch_update`, which loads the byte, applies the closure
/// and stores the result with a compare-and-swap, again and again until no
/// other thread has written in between. The closure is [`toggle_bits`], so
/// the stored value is always the loaded one with `mask` flipped. The call
/// answers `Ok` with the value that it replaced whenever the closure gave a
/// new one, and [`toggle_bits`] always does. Nothing is claimed of that
/// value: other handles may toggle at any time. Taken on trust besides is
/// that the call returns and does not unwind.
#[verifier::external_body]
fn fetch_toggle(cell: &AtomicU8, mask: u8) -> (r: Result<u8, u8>)
    ensures
        r is Ok,
    opens_invariants none
    no_unwind
{
    cell.fetch_update(Ordering::Relaxed, Ordering::Relaxed, |state| toggle_bits(state, mask))
}

/// One flip of a slot's bit, as it happened: the mask that was replaced and
/// the mask that replaced it.
#[derive(Clone, Copy, Debug, PartialEq, Eq, Structural)]
pub struct Toggle {
    /// The slot whose bit was flipped.
    pub position: u8,
    /// What the caller wanted noted with the flip.
    pub mode: u8,
    /// The mask before the flip.
    pub before: u8,
    /// The mask after the flip.
    pub after: u8,
}

/// The mask of checked out slots, shared by a pool and every slice it gave
/// out.
///
/// Bit set: the slot is out. Bit clear: it is free. Clones refer to the same
/// byte.
#[derive(Clone, Debug)]
pub struct SharedState(Arc<AtomicU8>);

impl Default for SharedState {
    fn default() -> Self {
        Self::new()
    }
}

impl SharedState {
    /// A mask of its own with every slot free.
    pub fn new() -> Self {
        Self(Arc::new(AtomicU8::new(0)))
    }

    /// Reads the mask as it is at this moment.
    ///
    /// Any value can come back: other handles toggle concurrently.
    /// [`crate::slot::in_use`] and [`crate::slot::lowest_free`] tell what a
    /// value means.
    #[inline(always)]
    pub fn load(&self, ordering: Ordering) -> u8
        requires
            !(ordering is Release),
            !(ordering is AcqRel),
    {
        self.0.load(ordering)
    }

    /// Flips the bit of slot `position`; does nothing for [`INGORE_INDEX`].
    ///
    /// The new mask is the one that [`crate::slot::toggled`] computes from
    /// the mask that was there at the moment of the exchange.
    pub fn toogle(&self, position: u8)
        requires
            valid_slot(position) || position == INGORE_INDEX,
        opens_invariants none
        no_unwind
    {
        match slot_mask(position) {
            Some(mask) => {
                let _ = fetch_toggle(&self.0, mask);
            },
            None => {},
        }
    }

    /// Flips the bit of slot `position` as [`SharedState::toogle`] does, and
    /// reports the flip for a log of the pool's use. For [`INGORE_INDEX`]
    /// nothing is flipped and nothing reported.
    ///
    /// The report shows the exchange as it took place: no other handle's
    /// toggle lies between its two masks.
    pub fn toogle_traced(&self, position: u8, mode: u8) -> (r: Option<Toggle>)
        requires
            valid_slot(position) || position == INGORE_INDEX,
        ensures
            position == INGORE_INDEX ==> r is None,
            valid_slot(position) ==> (r matches Some(t) && t.position == position && t.mode == mode
                && t.after == toggled(t.before, position)),
    {
        match slot_mask(position) {
            Some(mask) => match fetch_toggle(&self.0, mask) {
                Ok(before) => Some(Toggle { position, mode, before, after: before ^ mask }),
                Err(_) => None,
            },
            None => None,
        }
    }
}

/// The claim of one buffer on its slot. Dropping it hands the slot back.
#[derive(Debug)]
struct SlotGuard {
    index: u8,
    shared_state: SharedState,
}

impl SlotGuard {
    #[verifier::type_invariant]
    closed spec fn well_formed(self) -> bool {
        valid_slot(self.index) || self.index == INGORE_INDEX
    }
}

impl Drop for SlotGuard {
    fn drop(&mut self)
        opens_invariants none
        no_unwind
    {
        proof {
            use_type_invariant(&*self);
        }
        self.shared_state.toogle(self.index);
    }
}

/// A contiguous run of bytes with exclusive access, tagged with the slot that
/// accounts for it.
#[derive(Debug)]
pub struct Slice {
    bytes: Vec<u8>,
    guard: SlotGuard,
}

impl View for Slice {
    type V = Seq<u8>;

    closed spec fn view(&self) -> Seq<u8> {
        self.bytes@
    }
}

impl Slice {
    /// The slot that accounts for this slice, or [`INGORE_INDEX`].
    pub closed spec fn spec_index(&self) -> u8 {
        self.guard.index
    }

    /// No slot accounts for this slice: its bytes came from the heap.
    pub open spec fn spec_heap_backed(&self) -> bool {
        self.spec_index() == INGORE_INDEX
    }

    /// A slice over `bytes` that stands for slot `index` of the pool behind
    /// `shared_state`. The caller has checked the slot out.
    pub(crate) fn in_slot(bytes: Vec<u8>, index: u8, shared_state: SharedState) -> (r: Slice)
        requires
            valid_slot(index),
        ensures
            r@ == bytes@,
            r.spec_index() == index,
    {
        Slice { bytes, guard: SlotGuard { index, shared_state } }
    }

    /// A slice over `bytes` that no slot accounts for.
    pub fn from_vec(bytes: Vec<u8>) -> (r: Slice)
        ensures
            r@ == bytes@,
            r.spec_heap_backed(),
    {
        Slice { bytes, guard: SlotGuard { index: INGORE_INDEX, shared_state: SharedState::new() } }
    }

    /// The slot that accounts for this slice, or [`INGORE_INDEX`].
    pub fn index(&self) -> (r: u8)
        ensures
            r == self.spec_index(),
            valid_slot(r) || r == INGORE_INDEX,
    {
        proof {
            use_type_invariant(&self.guard);
        }
        self.guard.index
    }

    /// Whether the bytes came from the heap, with no slot checked out.
    pub fn is_heap_backed(&self) -> (r: bool)
        ensures
            r == self.spec_heap_backed(),
    {
        self.guard.index == INGORE_INDEX
    }

    /// The number of bytes.
    pub fn len(&self) -> (r: usize)
        ensures
            r == self@.len(),
    {
        self.bytes.len()
    }

    /// The bytes, to read.
    pub fn as_ref(&self) -> (r: &[u8])
        ensures
            r@ == self@,
    {
        self.bytes.as_slice()
    }

    /// The bytes, to write. What the caller leaves in them is what the slice
    /// holds afterwards; the slot stays the same.
    pub fn as_mut(&mut self) -> (r: &mut [u8])
        ensures
            r@ == old(self)@,
            final(self)@ == final(r)@,
            final(self).spec_index() == old(self).spec_index(),
    {
        self.bytes.as_mut_slice()
    }

    /// A copy of the bytes on the heap.
    pub fn to_vec(&self) -> (r: Vec<u8>)
        ensures
            r@ == self@,
    {
        let mut out: Vec<u8> = Vec::new();
        let mut i: usize = 0;
        while i < self.bytes.len()
            invariant
                i <= self.bytes@.len(),
                out@ == self.bytes@.subrange(0, i as int),
            decreases self.bytes@.len() - i,
        {
            out.push(self.bytes[i]);
            i = i + 1;
        }
        out
    }
}

impl vstd::std_specs::convert::FromSpecImpl<Vec<u8>> for Slice {
    /// A slice made from a vector holds a mask of its own, which no function
    /// of the vector can name: the conversion is described by the `ensures`
    /// of `from` instead.
    open spec fn obeys_from_spec() -> bool {
        false
    }

    open spec fn from_spec(v: Vec<u8>) -> Slice {
        arbitrary()
    }
}

impl From<Vec<u8>> for Slice {
    /// A heap-backed slice over the whole of `v`.
    fn from(v: Vec<u8>) -> (r: Slice)
        ensures
            r@ == v@,
            r.spec_heap_backed(),
    {
        Slice::from_vec(v)
    }
}

} // verus!
