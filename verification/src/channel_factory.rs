//! The pool's channel manager: where channel ids come from.

use vstd::prelude::*;

verus! {

/// A half-open range of byte positions in an extranonce.
#[derive(Clone, Copy, Debug, PartialEq, Eq, Structural)]
pub struct ByteRange {
    pub start: usize,
    pub end: usize,
}

/// Hands out channel ids and knows how the 32 bytes of an extranonce are
/// shared out: none for an upstream, the first 16 for the pool, the last 16
/// for the channels below it.
#[derive(Clone, Debug)]
pub struct PoolChannelManager {
    last_id: u32,
    range_0: ByteRange,
    range_1: ByteRange,
    range_2: ByteRange,
}

impl PoolChannelManager {
    /// The id that was handed out last; 0 before the first.
    pub closed spec fn spec_last_id(&self) -> u32 {
        self.last_id
    }

    /// The three ranges of the extranonce, in order.
    pub closed spec fn spec_ranges(&self) -> (ByteRange, ByteRange, ByteRange) {
        (self.range_0, self.range_1, self.range_2)
    }

    /// A manager that has handed out no id.
    pub fn new() -> (r: Self)
        ensures
            r.spec_last_id() == 0,
            r.spec_ranges() == (
                ByteRange { start: 0, end: 0 },
                ByteRange { start: 0, end: 16 },
                ByteRange { start: 16, end: 32 },
            ),
    {
        Self {
            last_id: 0,
            range_0: ByteRange { start: 0, end: 0 },
            range_1: ByteRange { start: 0, end: 16 },
            range_2: ByteRange { start: 16, end: 32 },
        }
    }

    /// The next id: one more than the last.
    pub fn next_id(&mut self) -> (r: u32)
        requires
            old(self).spec_last_id() < u32::MAX,
        ensures
            r == old(self).spec_last_id() + 1,
            final(self).spec_last_id() == r,
            final(self).spec_ranges() == old(self).spec_ranges(),
    {
        self.last_id = self.last_id + 1;
        self.last_id
    }

    /// The three ranges of the extranonce, in order.
    pub fn ranges(&self) -> (r: (ByteRange, ByteRange, ByteRange))
        ensures
            r == self.spec_ranges(),
    {
        (self.range_0, self.range_1, self.range_2)
    }
}

} // verus!
