//! Turns a byte stream into frames without knowing where messages end.
//!
//! A decoder collects the bytes of one frame at a time. In standard mode it
//! first wants the six header bytes, reads the payload length from them, and
//! then wants that many more. In handshake mode it wants a fixed number of
//! bytes and reads no header. It never blocks: the caller reads from the
//! network, in chunks of any size, and asks again.
//!
//! Bytes reach the decoder in one of two ways. [`Decoder::writable`] hands
//! out a window of exactly the bytes that are missing, for the caller to fill
//! in place. [`Decoder::feed`] copies from a chunk that the caller already
//! holds, and takes no more than what is missing.

use crate::frame::{Frame, FrameView, HandshakeFrame, StandardFrame};
use crate::header::{lemma_serialize_parse, spec_parse, Header, HEADER_SIZE};
use crate::pool::{zeros, BufferPool};
use vstd::prelude::*;
use vstd::slice::slice_subrange;

verus! {

/// Which kind of frame a decoder expects.
#[derive(Clone, Copy, Debug, PartialEq, Eq, Structural)]
pub enum Mode {
    /// Header and payload, after the handshake.
    Standard,
    /// A blob of the given length, during the handshake.
    Handshake(usize),
}

/// What a decoder holds, as plain values: its mode and the bytes of the
/// current frame that have arrived so far.
pub struct DecoderView {
    pub mode: Mode,
    pub buffer: Seq<u8>,
}

impl DecoderView {
    /// A decoder that has received nothing.
    pub open spec fn fresh(mode: Mode) -> DecoderView {
        DecoderView { mode, buffer: Seq::empty() }
    }

    /// The length of the frame at the head of the buffer. In standard mode it
    /// is known once six bytes are there.
    pub open spec fn frame_len(self) -> nat
        recommends
            self.mode is Handshake || self.buffer.len() >= 6,
    {
        match self.mode {
            Mode::Standard => (6 + spec_parse(self.buffer).msg_length) as nat,
            Mode::Handshake(len) => len as nat,
        }
    }

    /// How many bytes the decoder wants next: the rest of the header while
    /// the header is incomplete, then the rest of the payload; in handshake
    /// mode the rest of the blob. Zero when a whole frame is there.
    pub open spec fn missing(self) -> nat {
        if self.mode is Standard && self.buffer.len() < 6 {
            (6 - self.buffer.len()) as nat
        } else if self.buffer.len() < self.frame_len() {
            (self.frame_len() - self.buffer.len()) as nat
        } else {
            0
        }
    }

    /// The frame at the head of the buffer, once nothing is missing.
    pub open spec fn frame(self) -> FrameView
        recommends
            self.missing() == 0,
    {
        match self.mode {
            Mode::Standard => FrameView::Standard {
                header: spec_parse(self.buffer),
                payload: self.buffer.subrange(6, self.frame_len() as int),
            },
            Mode::Handshake(len) => FrameView::Handshake {
                payload: self.buffer.subrange(0, len as int),
            },
        }
    }

    /// The decoder after the frame at the head of the buffer was taken out.
    pub open spec fn after_frame(self) -> DecoderView
        recommends
            self.missing() == 0,
    {
        DecoderView {
            mode: self.mode,
            buffer: self.buffer.subrange(self.frame_len() as int, self.buffer.len() as int),
        }
    }

    /// How many bytes of `chunk` the decoder takes: all that is missing, or
    /// the whole chunk if that is less.
    pub open spec fn taken(self, chunk: Seq<u8>) -> nat {
        if chunk.len() <= self.missing() {
            chunk.len()
        } else {
            self.missing()
        }
    }

    /// The decoder after it was fed `chunk`.
    pub open spec fn feed(self, chunk: Seq<u8>) -> DecoderView {
        DecoderView {
            mode: self.mode,
            buffer: self.buffer + chunk.subrange(0, self.taken(chunk) as int),
        }
    }

    /// The decoder after it was offered all of `chunk`: it is fed what is
    /// left of the chunk again and again, until the chunk is used up or a
    /// whole frame is there.
    pub open spec fn absorb(self, chunk: Seq<u8>) -> DecoderView
        decreases chunk.len(),
    {
        if chunk.len() == 0 || self.missing() == 0 {
            self
        } else {
            self.feed(chunk).absorb(chunk.subrange(self.taken(chunk) as int, chunk.len() as int))
        }
    }
}

/// What `next_frame` found.
#[derive(Debug)]
pub enum DecodeOutcome {
    /// The frame is incomplete: this many bytes are wanted next.
    NeedBytes(usize),
    /// A whole frame.
    Frame(Frame),
}

/// The decoder of one connection.
#[derive(Debug)]
pub struct Decoder {
    pool: BufferPool,
    mode: Mode,
    buffer: Vec<u8>,
}

impl View for Decoder {
    type V = DecoderView;

    closed spec fn view(&self) -> DecoderView {
        DecoderView { mode: self.mode, buffer: self.buffer@ }
    }
}

impl Decoder {
    /// A decoder for standard frames that has received nothing. Completed
    /// frames are accounted for by `pool`.
    pub fn new(pool: BufferPool) -> (r: Decoder)
        ensures
            r@ == DecoderView::fresh(Mode::Standard),
    {
        Decoder { pool, mode: Mode::Standard, buffer: Vec::new() }
    }

    /// A decoder for handshake frames of `len` bytes that has received
    /// nothing.
    pub fn for_handshake(pool: BufferPool, len: usize) -> (r: Decoder)
        ensures
            r@ == DecoderView::fresh(Mode::Handshake(len)),
    {
        Decoder { pool, mode: Mode::Handshake(len), buffer: Vec::new() }
    }

    /// Changes the kind of frame that is expected. The bytes received so far
    /// stay.
    pub fn set_mode(&mut self, mode: Mode)
        ensures
            final(self)@ == (DecoderView { mode, buffer: old(self)@.buffer }),
    {
        self.mode = mode;
    }

    /// The kind of frame that is expected.
    pub fn mode(&self) -> (r: Mode)
        ensures
            r == self@.mode,
    {
        self.mode
    }

    /// The number of bytes received so far of the current frame.
    pub fn buffered(&self) -> (r: usize)
        ensures
            r == self@.buffer.len(),
    {
        self.buffer.len()
    }

    /// The length of the frame at the head of the buffer, if it is known
    /// yet.
    fn frame_len(&self) -> (r: Option<usize>)
        ensures
            match r {
                Some(n) => n == self@.frame_len() && (self@.mode is Standard
                    ==> self@.buffer.len() >= 6),
                None => self@.mode is Standard && self@.buffer.len() < 6,
            },
    {
        match self.mode {
            Mode::Handshake(len) => Some(len),
            Mode::Standard => match Header::parse(self.buffer.as_slice()) {
                Ok(header) => Some(HEADER_SIZE + header.msg_length() as usize),
                Err(_) => None,
            },
        }
    }

    /// How many bytes the decoder wants next; zero when a whole frame is
    /// there.
    pub fn missing(&self) -> (r: usize)
        ensures
            r == self@.missing(),
    {
        match self.frame_len() {
            None => HEADER_SIZE - self.buffer.len(),
            Some(total) => if self.buffer.len() < total {
                total - self.buffer.len()
            } else {
                0
            },
        }
    }

    /// A window of exactly the missing bytes, zeroed, for the caller to
    /// fill.
    ///
    /// The window is part of the decoder's buffer from this call on: what
    /// the caller leaves in it is what the decoder has received.
    pub fn writable(&mut self) -> (window: &mut [u8])
        ensures
            window@ == zeros(old(self)@.missing()),
            final(self)@ == (DecoderView {
                mode: old(self)@.mode,
                buffer: old(self)@.buffer + final(window)@,
            }),
    {
        let wanted = self.missing();
        let start = self.buffer.len();
        let mut i: usize = 0;
        while i < wanted
            invariant
                i <= wanted,
                self.mode == old(self).mode,
                self.buffer@ == old(self).buffer@ + zeros(i as nat),
            decreases wanted - i,
        {
            self.buffer.push(0u8);
            i = i + 1;
        }
        let all = self.buffer.as_mut_slice();
        let (head, tail) = all.split_at_mut(start);
        proof {
            assert(head@ =~= old(self).buffer@);
        }
        tail
    }

    /// Copies into the buffer as many bytes of `chunk` as are missing, from
    /// its start, and says how many that were.
    pub fn feed(&mut self, chunk: &[u8]) -> (taken: usize)
        ensures
            taken == old(self)@.taken(chunk@),
            final(self)@ == old(self)@.feed(chunk@),
    {
        let wanted = self.missing();
        let count = if chunk.len() <= wanted {
            chunk.len()
        } else {
            wanted
        };
        let mut i: usize = 0;
        while i < count
            invariant
                i <= count <= chunk@.len(),
                self.mode == old(self).mode,
                self.buffer@ == old(self).buffer@ + chunk@.subrange(0, i as int),
            decreases count - i,
        {
            self.buffer.push(chunk[i]);
            i = i + 1;
        }
        count
    }

    /// Offers the decoder all of `chunk` and takes the frame out if that
    /// completes one. Says how many bytes of the chunk were used.
    ///
    /// The decoder uses the chunk up unless a frame is complete before its
    /// end; then the bytes behind the frame stay with the caller, as the
    /// start of the next frame. At most two rounds of feeding are needed: one
    /// to the end of the header, one to the end of the payload.
    pub fn absorb(&mut self, chunk: &[u8]) -> (r: (usize, DecodeOutcome))
        ensures
            r.0 <= chunk@.len(),
            old(self)@.absorb(chunk@).buffer == old(self)@.buffer + chunk@.subrange(0, r.0 as int),
            match r.1 {
                DecodeOutcome::NeedBytes(n) => {
                    &&& r.0 == chunk@.len()
                    &&& n > 0
                    &&& n == final(self)@.missing()
                    &&& final(self)@ == old(self)@.absorb(chunk@)
                },
                DecodeOutcome::Frame(frame) => {
                    &&& old(self)@.absorb(chunk@).missing() == 0
                    &&& frame@ == old(self)@.absorb(chunk@).frame()
                    &&& frame@.valid()
                    &&& final(self)@ == old(self)@.absorb(chunk@).after_frame()
                },
            },
    {
        let ghost start = self@;
        let first = self.feed(chunk);
        let ghost fed = self@;
        proof {
            let rest = chunk@.subrange(first as int, chunk@.len() as int);
            if chunk@.len() > 0 && start.missing() > 0 && (rest.len() == 0 || fed.missing() == 0) {
                assert(fed.absorb(rest) == fed);
            }
        }
        match self.next_frame() {
            DecodeOutcome::Frame(frame) => (first, DecodeOutcome::Frame(frame)),
            DecodeOutcome::NeedBytes(wanted) => {
                if first == chunk.len() {
                    return (first, DecodeOutcome::NeedBytes(wanted));
                }
                let rest = slice_subrange(chunk, first, chunk.len());
                let second = self.feed(rest);
                let ghost last = self@;
                proof {
                    let left = rest@.subrange(second as int, rest@.len() as int);
                    assert(fed.buffer.len() == 6);
                    assert(spec_parse(last.buffer) == spec_parse(fed.buffer));
                    assert(left.len() == 0 || last.missing() == 0);
                    assert(last.absorb(left) == last);
                    assert(fed.absorb(rest@) == last);
                    assert(last.buffer =~= start.buffer + chunk@.subrange(0, first + second));
                }
                let outcome = self.next_frame();
                (first + second, outcome)
            },
        }
    }

    /// Takes the frame at the head of the buffer, if it is whole.
    ///
    /// While bytes are missing the answer is `NeedBytes` with their number,
    /// and the decoder stays as it is. Once none are missing the answer is
    /// the frame, and the decoder starts on the next one.
    pub fn next_frame(&mut self) -> (r: DecodeOutcome)
        ensures
            match r {
                DecodeOutcome::NeedBytes(n) => {
                    &&& n > 0
                    &&& n == old(self)@.missing()
                    &&& final(self)@ == old(self)@
                },
                DecodeOutcome::Frame(frame) => {
                    &&& old(self)@.missing() == 0
                    &&& frame@ == old(self)@.frame()
                    &&& frame@.valid()
                    &&& final(self)@ == old(self)@.after_frame()
                },
            },
    {
        let wanted = self.missing();
        if wanted > 0 {
            return DecodeOutcome::NeedBytes(wanted);
        }
        match self.mode {
            Mode::Handshake(len) => {
                let mut bytes = self.buffer.split_off(len);
                std::mem::swap(&mut bytes, &mut self.buffer);
                let payload = self.pool.adopt(bytes);
                DecodeOutcome::Frame(Frame::Handshake(HandshakeFrame::from_slice(payload)))
            },
            Mode::Standard => {
                let header = Header::parse(self.buffer.as_slice()).unwrap();
                let total: usize = HEADER_SIZE + header.msg_length() as usize;
                let mut bytes = self.buffer.split_off(total);
                std::mem::swap(&mut bytes, &mut self.buffer);
                proof {
                    let first = old(self).buffer@.subrange(0, 6);
                    lemma_serialize_parse(first);
                    assert(bytes@.subrange(0, 6) =~= first);
                    assert(bytes@.subrange(6, bytes@.len() as int) =~= old(self).buffer@.subrange(
                        6,
                        total as int,
                    ));
                }
                let serialized = self.pool.adopt(bytes);
                DecodeOutcome::Frame(Frame::Standard(StandardFrame::from_parts(header, serialized)))
            },
        }
    }
}

} // verus!
