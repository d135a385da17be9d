//! Writes a frame as one contiguous run of bytes, ready to be sent.

use crate::frame::Frame;
use crate::pool::BufferPool;
use crate::slice::Slice;
use vstd::prelude::*;

verus! {

/// The encoder of one connection. It keeps the bytes of the frame it encoded
/// last in a buffer of its own, which the next call reuses.
#[derive(Debug)]
pub struct Encoder {
    pool: BufferPool,
    scratch: Slice,
}

impl Encoder {
    /// The bytes of the frame that was encoded last; empty before the first.
    pub closed spec fn spec_encoded(&self) -> Seq<u8> {
        self.scratch@
    }

    /// An encoder whose buffer is accounted for by `pool`.
    pub fn new(pool: BufferPool) -> (r: Encoder)
        ensures
            r.spec_encoded() == Seq::<u8>::empty(),
    {
        Encoder { pool, scratch: Slice::from_vec(Vec::new()) }
    }

    /// The bytes of the frame that was encoded last.
    pub fn encoded(&self) -> (r: &[u8])
        ensures
            r@ == self.spec_encoded(),
    {
        self.scratch.as_ref()
    }

    /// Writes `frame` to the encoder's buffer and lends the bytes out until
    /// the next call.
    ///
    /// A standard frame is written as its six header bytes followed by its
    /// payload, a handshake frame as its payload alone. The bytes depend on
    /// the frame only: equal frames give equal bytes, whatever was encoded
    /// before.
    pub fn encode(&mut self, frame: Frame) -> (r: &[u8])
        ensures
            r@ == frame@.wire(),
            final(self).spec_encoded() == frame@.wire(),
    {
        let mut bytes: Vec<u8> = Vec::new();
        match &frame {
            Frame::Handshake(_) => {},
            Frame::Standard(standard) => {
                let head = standard.header().serialize();
                let mut i: usize = 0;
                while i < 6
                    invariant
                        i <= 6,
                        head@.len() == 6,
                        bytes@ == head@.subrange(0, i as int),
                    decreases 6 - i,
                {
                    bytes.push(head[i]);
                    i = i + 1;
                }
            },
        }
        let ghost head_bytes = bytes@;
        let payload = frame.payload();
        let mut j: usize = 0;
        while j < payload.len()
            invariant
                j <= payload@.len(),
                bytes@ == head_bytes + payload@.subrange(0, j as int),
            decreases payload@.len() - j,
        {
            bytes.push(payload[j]);
            j = j + 1;
        }
        // The old buffer goes first, so that its slot is free for the new one.
        self.scratch = Slice::from_vec(Vec::new());
        self.scratch = self.pool.adopt(bytes);
        self.scratch.as_ref()
    }
}

} // verus!
