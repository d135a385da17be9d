//! What holds between the encoder and the decoder.
//!
//! The statements here are about the plain values that the contracts of
//! [`crate::encoder::Encoder::encode`], [`crate::decoder::Decoder::feed`] and
//! [`crate::decoder::Decoder::next_frame`] speak of.

use crate::decoder::{DecoderView, Mode};
use crate::frame::FrameView;
use crate::header::{lemma_parse_serialize, spec_parse, spec_serialize, HeaderFields};
use vstd::prelude::*;

verus! {

/// The first `k` bytes of `wire`.
pub open spec fn prefix(wire: Seq<u8>, k: int) -> Seq<u8> {
    wire.subrange(0, k)
}

/// The mode in which a decoder expects `frame`.
pub open spec fn mode_of(frame: FrameView) -> Mode {
    match frame {
        FrameView::Standard { header, payload } => Mode::Standard,
        FrameView::Handshake { payload } => Mode::Handshake(payload.len() as usize),
    }
}

/// The header of a standard frame can be read as soon as six bytes of its
/// wire form are there.
proof fn lemma_header_of_prefix(header: HeaderFields, payload: Seq<u8>, k: int)
    requires
        header.valid(),
        6 <= k <= 6 + payload.len(),
    ensures
        spec_parse(prefix(spec_serialize(header) + payload, k)) == header,
{
    lemma_parse_serialize(header);
}

/// Decoding what was encoded gives the frame back: the same header fields and
/// the same payload bytes, with nothing left over.
pub proof fn lemma_decode_encode(frame: FrameView)
    requires
        frame.valid(),
        frame.payload().len() <= usize::MAX,
    ensures
        ({
            let decoder = DecoderView { mode: mode_of(frame), buffer: frame.wire() };
            &&& decoder.missing() == 0
            &&& decoder.frame() == frame
            &&& decoder.after_frame() == DecoderView::fresh(mode_of(frame))
        }),
{
    let decoder = DecoderView { mode: mode_of(frame), buffer: frame.wire() };
    match frame {
        FrameView::Standard { header, payload } => {
            let total: int = 6 + (payload.len() as int);
            lemma_header_of_prefix(header, payload, total);
            assert(prefix(frame.wire(), total) =~= frame.wire());
            assert(frame.wire().subrange(6, total) =~= payload);
            assert(decoder.after_frame().buffer =~= Seq::<u8>::empty());
        },
        FrameView::Handshake { payload } => {
            assert(payload.subrange(0, payload.len() as int) =~= payload);
            assert(decoder.after_frame().buffer =~= Seq::<u8>::empty());
        },
    }
}

/// While a frame is arriving, the decoder asks for bytes and never for more
/// than are still to come: with `k` of the frame's bytes received, it wants
/// at least one and at most the rest. With all of them received it wants
/// none, and the frame it gives is the one that was sent.
pub proof fn lemma_two_phase(frame: FrameView, k: int)
    requires
        frame.valid(),
        frame.payload().len() <= usize::MAX,
        0 <= k <= frame.wire().len(),
    ensures
        ({
            let decoder = DecoderView { mode: mode_of(frame), buffer: prefix(frame.wire(), k) };
            &&& k < frame.wire().len() ==> 0 < decoder.missing() <= frame.wire().len() - k
            &&& k == frame.wire().len() ==> decoder.missing() == 0 && decoder.frame() == frame
        }),
{
    match frame {
        FrameView::Standard { header, payload } => {
            if k >= 6 {
                lemma_header_of_prefix(header, payload, k);
            }
        },
        FrameView::Handshake { payload } => {},
    }
    if k == frame.wire().len() {
        assert(prefix(frame.wire(), k) =~= frame.wire());
        lemma_decode_encode(frame);
    }
}

/// In standard mode the first request is for the six header bytes, and once
/// they are there the second is for exactly the payload.
pub proof fn lemma_header_then_payload(header: HeaderFields, payload: Seq<u8>)
    requires
        header.valid(),
        payload.len() == header.msg_length,
    ensures
        DecoderView::fresh(Mode::Standard).missing() == 6,
        (DecoderView { mode: Mode::Standard, buffer: spec_serialize(header) }).missing()
            == payload.len(),
{
    lemma_parse_serialize(header);
}

/// The chunks of `chunks` laid end to end.
pub open spec fn concat(chunks: Seq<Seq<u8>>) -> Seq<u8>
    decreases chunks.len(),
{
    if chunks.len() == 0 {
        Seq::empty()
    } else {
        chunks[0] + concat(chunks.subrange(1, chunks.len() as int))
    }
}

/// The decoder after the caller has offered it each chunk of `chunks` in
/// turn.
pub open spec fn absorb_all(decoder: DecoderView, chunks: Seq<Seq<u8>>) -> DecoderView
    decreases chunks.len(),
{
    if chunks.len() == 0 {
        decoder
    } else {
        absorb_all(decoder.absorb(chunks[0]), chunks.subrange(1, chunks.len() as int))
    }
}

/// Offering the next bytes of a frame to a decoder that holds its first `k`
/// leaves it holding that many more: no byte is refused and none is taken
/// twice.
proof fn lemma_absorb(frame: FrameView, k: int, chunk: Seq<u8>)
    requires
        frame.valid(),
        frame.payload().len() <= usize::MAX,
        0 <= k,
        k + chunk.len() <= frame.wire().len(),
        chunk == frame.wire().subrange(k, k + chunk.len()),
    ensures
        (DecoderView { mode: mode_of(frame), buffer: prefix(frame.wire(), k) }).absorb(chunk)
            == (DecoderView {
            mode: mode_of(frame),
            buffer: prefix(frame.wire(), k + chunk.len()),
        }),
    decreases chunk.len(),
{
    let decoder = DecoderView { mode: mode_of(frame), buffer: prefix(frame.wire(), k) };
    lemma_two_phase(frame, k);
    if chunk.len() == 0 || decoder.missing() == 0 {
        assert(chunk.len() == 0);
        assert(prefix(frame.wire(), k + chunk.len()) =~= prefix(frame.wire(), k));
    } else {
        let n = decoder.taken(chunk) as int;
        let rest = chunk.subrange(n, chunk.len() as int);
        assert(decoder.feed(chunk).buffer =~= prefix(frame.wire(), k + n));
        assert(rest =~= frame.wire().subrange(k + n, k + n + rest.len()));
        lemma_absorb(frame, k + n, rest);
    }
}

/// However the bytes of a frame are cut into chunks, a decoder that is
/// offered the chunks one after another holds the whole frame at the end and
/// gives it back as it was sent; and while bytes are still to come it asks
/// for at least one and for no more than are to come.
pub proof fn lemma_any_chunking(frame: FrameView, chunks: Seq<Seq<u8>>, k: int)
    requires
        frame.valid(),
        frame.payload().len() <= usize::MAX,
        0 <= k <= frame.wire().len(),
        concat(chunks) == frame.wire().subrange(k, frame.wire().len() as int),
    ensures
        ({
            let start = DecoderView { mode: mode_of(frame), buffer: prefix(frame.wire(), k) };
            let end = absorb_all(start, chunks);
            &&& end.buffer == frame.wire()
            &&& end.missing() == 0
            &&& end.frame() == frame
            &&& k < frame.wire().len() ==> 0 < start.missing() <= frame.wire().len() - k
        }),
    decreases chunks.len(),
{
    let start = DecoderView { mode: mode_of(frame), buffer: prefix(frame.wire(), k) };
    lemma_two_phase(frame, k);
    if chunks.len() == 0 {
        assert(concat(chunks).len() == 0);
        assert(frame.wire().subrange(k, frame.wire().len() as int).len() == 0);
        assert(prefix(frame.wire(), k) =~= frame.wire());
    } else {
        let first = chunks[0];
        let others = chunks.subrange(1, chunks.len() as int);
        let tail = frame.wire().subrange(k, frame.wire().len() as int);
        assert(tail.len() == first.len() + concat(others).len());
        assert(first =~= frame.wire().subrange(k, k + first.len())) by {
            assert(first =~= tail.subrange(0, first.len() as int));
        }
        assert(concat(others) =~= frame.wire().subrange(
            k + first.len(),
            frame.wire().len() as int,
        )) by {
            assert(concat(others) =~= tail.subrange(first.len() as int, tail.len() as int));
        }
        lemma_absorb(frame, k, first);
        lemma_any_chunking(frame, others, k + first.len());
    }
}

} // verus!
