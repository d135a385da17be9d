use sv2_framing::decoder::{DecodeOutcome, Decoder, Mode};
use sv2_framing::encoder::Encoder;
use sv2_framing::frame::{Frame, HandshakeFrame, StandardFrame};
use sv2_framing::header::{with_channel_flag, Error, Header, HEADER_SIZE, MAX_MSG_LENGTH};
use sv2_framing::pool::BufferPool;

fn payload8() -> Vec<u8> {
    vec![0xde, 0xad, 0xbe, 0xef, 0x01, 0x02, 0x03, 0x04]
}

fn wire14() -> Vec<u8> {
    let mut wire = vec![0x00, 0x00, 0x18, 0x08, 0x00, 0x00];
    wire.extend_from_slice(&payload8());
    wire
}

fn expect_need(outcome: DecodeOutcome, wanted: usize) {
    match outcome {
        DecodeOutcome::NeedBytes(n) => assert_eq!(n, wanted),
        DecodeOutcome::Frame(_) => panic!("a frame came out too early"),
    }
}

fn expect_frame(outcome: DecodeOutcome) -> Frame {
    match outcome {
        DecodeOutcome::Frame(frame) => frame,
        DecodeOutcome::NeedBytes(n) => panic!("{} bytes are still wanted", n),
    }
}

#[test]
fn header_serializes_little_endian() {
    let header = Header::new(0x8001, 0x18, 0x030201).unwrap();
    assert_eq!(header.serialize(), [0x01, 0x80, 0x18, 0x01, 0x02, 0x03]);
    assert!(header.channel_id_present());
    assert_eq!(header.extension_type(), 0x8001);
    assert_eq!(header.msg_type(), 0x18);
    assert_eq!(header.msg_length(), 0x030201);
}

#[test]
fn header_parse_reads_fields() {
    let header = Header::parse(&[0x34, 0x12, 0x07, 0xff, 0xff, 0xff]).unwrap();
    assert_eq!(header.extension_type(), 0x1234);
    assert_eq!(header.msg_type(), 0x07);
    assert_eq!(header.msg_length(), MAX_MSG_LENGTH);
    assert!(!header.channel_id_present());
}

#[test]
fn header_parse_ignores_what_follows_the_sixth_byte() {
    let header = Header::parse(&wire14()).unwrap();
    assert_eq!(header, Header::new(0, 0x18, 8).unwrap());
}

#[test]
fn header_parse_rejects_short_input() {
    assert_eq!(Header::parse(&[0, 0, 0x18, 8, 0]), Err(Error::MalformedHeader));
    assert_eq!(Header::parse(&[]), Err(Error::MalformedHeader));
}

#[test]
fn header_parse_inverts_serialize() {
    for (ext, ty, len) in [(0u16, 0u8, 0u32), (0xffff, 0xff, MAX_MSG_LENGTH), (1, 2, 65536), (0x8000, 9, 255)] {
        let header = Header::new(ext, ty, len).unwrap();
        assert_eq!(Header::parse(&header.serialize()), Ok(header));
    }
}

#[test]
fn header_with_length_two_to_the_24_is_malformed() {
    assert_eq!(Header::new(0, 0x18, 1 << 24), Err(Error::MalformedHeader));
    assert_eq!(Header::new(0, 0x18, u32::MAX), Err(Error::MalformedHeader));
    assert!(Header::new(0, 0x18, (1 << 24) - 1).is_ok());
}

#[test]
fn channel_flag_sets_and_clears_the_top_bit() {
    assert_eq!(with_channel_flag(0x0001, true), 0x8001);
    assert_eq!(with_channel_flag(0x8001, true), 0x8001);
    assert_eq!(with_channel_flag(0x8001, false), 0x0001);
    assert_eq!(with_channel_flag(0x7fff, false), 0x7fff);
}

#[test]
fn from_message_builds_header_and_payload() {
    let frame = StandardFrame::from_message(&payload8(), 0x18, 0, false).unwrap();
    assert_eq!(*frame.header(), Header::new(0, 0x18, 8).unwrap());
    assert_eq!(frame.payload(), &payload8()[..]);
    assert_eq!(frame.encoded_length(), 14);
    assert_eq!(frame.serialized(), &wire14()[..]);
}

#[test]
fn from_message_sets_channel_flag() {
    let frame = StandardFrame::from_message(&[1, 0, 0, 0, 9], 0x1a, 0x0002, true).unwrap();
    assert_eq!(frame.header().extension_type(), 0x8002);
    assert!(frame.header().channel_id_present());
    assert_eq!(frame.header().msg_length(), 5);
}

#[test]
fn from_message_rejects_payload_beyond_24_bits() {
    let too_long = vec![0u8; 1 << 24];
    assert!(StandardFrame::from_message(&too_long, 1, 0, false).is_none());
    let longest = vec![7u8; (1 << 24) - 1];
    let frame = StandardFrame::from_message(&longest, 1, 0, false).unwrap();
    assert_eq!(frame.header().msg_length(), MAX_MSG_LENGTH);
    assert_eq!(frame.encoded_length(), HEADER_SIZE + longest.len());
}

#[test]
fn frame_accessors_by_kind() {
    let standard = Frame::Standard(StandardFrame::from_message(&[1, 2, 3], 4, 5, false).unwrap());
    assert_eq!(standard.header().map(|h| h.msg_type()), Some(4));
    assert_eq!(standard.payload(), &[1, 2, 3]);
    assert_eq!(standard.encoded_length(), 9);
    let handshake = Frame::Handshake(HandshakeFrame::from_bytes(&[9; 32]));
    assert!(handshake.header().is_none());
    assert_eq!(handshake.payload(), &[9; 32]);
    assert_eq!(handshake.encoded_length(), 32);
}

#[test]
fn encode_standard_frame_gives_header_then_payload() {
    let frame = StandardFrame::from_message(&payload8(), 0x18, 0, false).unwrap();
    let mut encoder = Encoder::new(BufferPool::new(8, 64));
    let bytes = encoder.encode(Frame::Standard(frame)).to_vec();
    assert_eq!(bytes.len(), 14);
    assert_eq!(bytes, wire14());
    assert_eq!(encoder.encoded(), &wire14()[..]);
}

#[test]
fn encode_handshake_frame_is_its_payload() {
    let mut encoder = Encoder::new(BufferPool::new(1, 16));
    let blob: Vec<u8> = (0u8..64).collect();
    let bytes = encoder.encode(Frame::Handshake(HandshakeFrame::from_bytes(&blob))).to_vec();
    assert_eq!(bytes, blob);
}

#[test]
fn encode_is_a_function_of_the_frame() {
    let mut encoder = Encoder::new(BufferPool::new(2, 8));
    let first = encoder
        .encode(Frame::Standard(StandardFrame::from_message(&[1, 2], 3, 4, true).unwrap()))
        .to_vec();
    let other = encoder
        .encode(Frame::Standard(StandardFrame::from_message(&[9; 40], 1, 0, false).unwrap()))
        .to_vec();
    let again = encoder
        .encode(Frame::Standard(StandardFrame::from_message(&[1, 2], 3, 4, true).unwrap()))
        .to_vec();
    assert_eq!(first, vec![0x04, 0x80, 3, 2, 0, 0, 1, 2]);
    assert_eq!(first, again);
    assert_eq!(other.len(), 46);
}

#[test]
fn decode_in_two_reads() {
    let wire = wire14();
    let mut decoder = Decoder::new(BufferPool::new(8, 64));
    assert_eq!(decoder.missing(), 6);
    decoder.writable().copy_from_slice(&wire[..6]);
    expect_need(decoder.next_frame(), 8);
    let window = decoder.writable();
    assert_eq!(window.len(), 8);
    window.copy_from_slice(&wire[6..]);
    let frame = expect_frame(decoder.next_frame());
    assert_eq!(frame.header().copied(), Some(Header::new(0, 0x18, 8).unwrap()));
    assert_eq!(frame.payload(), &payload8()[..]);
    assert_eq!(decoder.missing(), 6);
    assert_eq!(decoder.buffered(), 0);
}

#[test]
fn decode_fresh_decoder_needs_header() {
    let mut decoder = Decoder::new(BufferPool::new(1, 64));
    expect_need(decoder.next_frame(), 6);
    assert_eq!(decoder.feed(&[0, 0]), 2);
    expect_need(decoder.next_frame(), 4);
}

#[test]
fn decode_one_byte_at_a_time() {
    let wire = wire14();
    let mut decoder = Decoder::new(BufferPool::new(8, 64));
    for (i, byte) in wire.iter().enumerate() {
        let wanted = decoder.missing();
        assert!(wanted >= 1 && wanted <= wire.len() - i);
        assert_eq!(decoder.feed(&[*byte]), 1);
        let outcome = decoder.next_frame();
        if i + 1 < wire.len() {
            let left = if i + 1 < 6 { 6 - (i + 1) } else { wire.len() - (i + 1) };
            expect_need(outcome, left);
        } else {
            let frame = expect_frame(outcome);
            assert_eq!(frame.payload(), &payload8()[..]);
            assert_eq!(frame.header().map(|h| h.msg_type()), Some(0x18));
        }
    }
}

#[test]
fn decode_all_at_once_takes_header_then_payload() {
    let wire = wire14();
    let mut decoder = Decoder::new(BufferPool::new(8, 64));
    assert_eq!(decoder.feed(&wire), 6);
    expect_need(decoder.next_frame(), 8);
    assert_eq!(decoder.feed(&wire[6..]), 8);
    let frame = expect_frame(decoder.next_frame());
    assert_eq!(frame.encoded_length(), 14);
}

#[test]
fn decode_feed_never_takes_bytes_of_the_next_frame() {
    let mut stream = wire14();
    stream.extend_from_slice(&[0x01, 0x80, 0x02, 0x00, 0x00, 0x00]);
    let mut decoder = Decoder::new(BufferPool::new(8, 64));
    let mut at = 0;
    let mut frames = Vec::new();
    while at < stream.len() {
        at += decoder.feed(&stream[at..]);
        if let DecodeOutcome::Frame(frame) = decoder.next_frame() {
            frames.push(frame);
        }
    }
    assert_eq!(frames.len(), 2);
    assert_eq!(frames[0].payload(), &payload8()[..]);
    assert_eq!(frames[1].payload(), &[] as &[u8]);
    assert_eq!(frames[1].header().map(|h| h.extension_type()), Some(0x8001));
    assert_eq!(frames[1].header().map(|h| h.channel_id_present()), Some(true));
}

#[test]
fn decode_empty_payload_completes_with_the_header() {
    let mut decoder = Decoder::new(BufferPool::new(8, 64));
    decoder.writable().copy_from_slice(&[0, 0, 0x05, 0, 0, 0]);
    let frame = expect_frame(decoder.next_frame());
    assert_eq!(frame.encoded_length(), 6);
    assert_eq!(frame.payload().len(), 0);
}

#[test]
fn decode_handshake_mode_reads_no_header() {
    let blob: Vec<u8> = (100u8..132).collect();
    let mut decoder = Decoder::for_handshake(BufferPool::new(8, 64), 32);
    assert_eq!(decoder.mode(), Mode::Handshake(32));
    expect_need(decoder.next_frame(), 32);
    assert_eq!(decoder.feed(&blob[..10]), 10);
    expect_need(decoder.next_frame(), 22);
    decoder.writable().copy_from_slice(&blob[10..]);
    let frame = expect_frame(decoder.next_frame());
    assert!(frame.header().is_none());
    assert_eq!(frame.payload(), &blob[..]);
    decoder.set_mode(Mode::Standard);
    expect_need(decoder.next_frame(), 6);
}

#[test]
fn round_trip_through_encoder_and_decoder() {
    let payloads: Vec<Vec<u8>> = vec![vec![], vec![1], (0u8..=255).collect(), vec![0xaa; 70000]];
    let mut encoder = Encoder::new(BufferPool::new(4, 1024));
    let mut decoder = Decoder::new(BufferPool::new(4, 1024));
    for (i, payload) in payloads.iter().enumerate() {
        let channel = i % 2 == 1;
        let frame = StandardFrame::from_message(payload, i as u8, 0x0102, channel).unwrap();
        let header = *frame.header();
        let wire = encoder.encode(Frame::Standard(frame)).to_vec();
        let mut at = 0;
        let decoded = loop {
            at += decoder.feed(&wire[at..]);
            match decoder.next_frame() {
                DecodeOutcome::Frame(f) => break f,
                DecodeOutcome::NeedBytes(n) => assert!(n <= wire.len() - at),
            }
        };
        assert_eq!(at, wire.len());
        assert_eq!(decoded.header().copied(), Some(header));
        assert_eq!(decoded.payload(), &payload[..]);
    }
}

#[test]
fn absorb_takes_a_whole_frame_in_one_call() {
    let mut stream = wire14();
    stream.extend_from_slice(&[0xaa, 0xbb]);
    let mut decoder = Decoder::new(BufferPool::new(8, 64));
    let (used, outcome) = decoder.absorb(&stream);
    assert_eq!(used, 14);
    let frame = expect_frame(outcome);
    assert_eq!(frame.payload(), &payload8()[..]);
    assert_eq!(decoder.buffered(), 0);
    let (used, outcome) = decoder.absorb(&stream[14..]);
    assert_eq!(used, 2);
    expect_need(outcome, 4);
}

#[test]
fn absorb_stops_where_the_chunk_ends() {
    let wire = wire14();
    let mut decoder = Decoder::new(BufferPool::new(8, 64));
    let (used, outcome) = decoder.absorb(&wire[..4]);
    assert_eq!(used, 4);
    expect_need(outcome, 2);
    let (used, outcome) = decoder.absorb(&wire[4..9]);
    assert_eq!(used, 5);
    expect_need(outcome, 5);
    let (used, outcome) = decoder.absorb(&[]);
    assert_eq!(used, 0);
    expect_need(outcome, 5);
    let (used, outcome) = decoder.absorb(&wire[9..]);
    assert_eq!(used, 5);
    assert_eq!(expect_frame(outcome).payload(), &payload8()[..]);
}

#[test]
fn any_chunking_gives_the_same_frame() {
    let payload: Vec<u8> = (0u8..50).collect();
    let frame = StandardFrame::from_message(&payload, 0x21, 0x0003, true).unwrap();
    let wire = frame.serialized().to_vec();
    assert_eq!(wire.len(), 56);
    for size in 1..=wire.len() + 1 {
        let mut decoder = Decoder::new(BufferPool::new(2, 16));
        let mut received = 0;
        let mut done = None;
        for chunk in wire.chunks(size) {
            assert!(done.is_none());
            let wanted = decoder.missing();
            assert!(wanted >= 1 && wanted <= wire.len() - received);
            let (used, outcome) = decoder.absorb(chunk);
            assert_eq!(used, chunk.len());
            received += used;
            match outcome {
                DecodeOutcome::Frame(f) => done = Some(f),
                DecodeOutcome::NeedBytes(n) => assert!(n <= wire.len() - received),
            }
        }
        let decoded = done.unwrap();
        assert_eq!(received, wire.len());
        assert_eq!(decoded.header().copied(), Some(Header::new(0x8003, 0x21, 50).unwrap()));
        assert_eq!(decoded.payload(), &payload[..]);
    }
}

#[test]
fn decoded_frames_are_accounted_for_by_the_pool() {
    let mut decoder = Decoder::new(BufferPool::new(1, 14));
    let (_, first) = decoder.absorb(&wire14());
    let first = expect_frame(first);
    let (_, second) = decoder.absorb(&wire14());
    let second = expect_frame(second);
    assert_eq!(first.payload(), second.payload());
    let mut encoder = Encoder::new(BufferPool::new(1, 4));
    assert_eq!(encoder.encode(first), &wire14()[..]);
    assert_eq!(encoder.encode(second), &wire14()[..]);
}
