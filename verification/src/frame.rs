//! The two kinds of frame.
//!
//! Before a connection reaches transport mode it carries handshake frames:
//! opaque blobs whose length the handshake fixes. Afterwards it carries
//! standard frames: a header and as many payload bytes as the header says.

use crate::header::{
    spec_serialize, spec_with_channel_flag, with_channel_flag, Header, HeaderFields, HEADER_SIZE,
    MAX_MSG_LENGTH,
};
use crate::slice::Slice;
use vstd::prelude::*;
use vstd::slice::slice_subrange;

verus! {

/// What a frame holds, as plain values.
pub enum FrameView {
    Handshake { payload: Seq<u8> },
    Standard { header: HeaderFields, payload: Seq<u8> },
}

impl FrameView {
    /// A standard frame carries as many bytes as its header says, and the
    /// header is one that fits the wire.
    pub open spec fn valid(self) -> bool {
        match self {
            FrameView::Handshake { payload } => true,
            FrameView::Standard { header, payload } => header.valid() && payload.len()
                == header.msg_length,
        }
    }

    /// The payload bytes.
    pub open spec fn payload(self) -> Seq<u8> {
        match self {
            FrameView::Handshake { payload } => payload,
            FrameView::Standard { header, payload } => payload,
        }
    }

    /// The bytes of the frame on the wire: a standard frame starts with its
    /// header, a handshake frame is its payload and no more.
    pub open spec fn wire(self) -> Seq<u8> {
        match self {
            FrameView::Handshake { payload } => payload,
            FrameView::Standard { header, payload } => spec_serialize(header) + payload,
        }
    }
}

/// The header and payload that `from_message` frames, or `None` when the
/// payload is too long for the 24 bit length field.
pub open spec fn spec_from_message(
    payload: Seq<u8>,
    msg_type: u8,
    extension_type: u16,
    channel_msg: bool,
) -> Option<FrameView> {
    if payload.len() > MAX_MSG_LENGTH {
        None
    } else {
        Some(
            FrameView::Standard {
                header: HeaderFields {
                    extension_type: spec_with_channel_flag(extension_type, channel_msg),
                    msg_type,
                    msg_length: payload.len() as u32,
                },
                payload,
            },
        )
    }
}

/// An opaque blob exchanged before transport mode begins.
#[derive(Debug)]
pub struct HandshakeFrame {
    payload: Slice,
}

impl HandshakeFrame {
    /// The bytes of the blob.
    pub closed spec fn spec_payload(&self) -> Seq<u8> {
        self.payload@
    }

    /// A handshake frame over `payload`.
    pub fn from_slice(payload: Slice) -> (r: HandshakeFrame)
        ensures
            r.spec_payload() == payload@,
    {
        HandshakeFrame { payload }
    }

    /// A handshake frame over a copy of `bytes`.
    pub fn from_bytes(bytes: &[u8]) -> (r: HandshakeFrame)
        ensures
            r.spec_payload() == bytes@,
    {
        HandshakeFrame { payload: Slice::from_vec(vstd::slice::slice_to_vec(bytes)) }
    }

    /// The bytes of the blob.
    pub fn payload(&self) -> (r: &[u8])
        ensures
            r@ == self.spec_payload(),
    {
        self.payload.as_ref()
    }

    /// The number of bytes on the wire: the length of the blob.
    pub fn encoded_length(&self) -> (r: usize)
        ensures
            r == self.spec_payload().len(),
    {
        self.payload.len()
    }
}

/// A header and the payload it announces, held as one run of bytes: the six
/// header bytes first, the payload behind them.
#[derive(Debug)]
pub struct StandardFrame {
    header: Header,
    serialized: Slice,
}

impl StandardFrame {
    #[verifier::type_invariant]
    closed spec fn well_formed(self) -> bool {
        &&& self.header@.valid()
        &&& self.serialized@.len() == 6 + self.header@.msg_length
        &&& self.serialized@.subrange(0, 6) == spec_serialize(self.header@)
    }

    /// The fields of the header.
    pub closed spec fn spec_header(&self) -> HeaderFields {
        self.header@
    }

    /// The payload bytes, header not included.
    pub closed spec fn spec_payload(&self) -> Seq<u8> {
        self.serialized@.subrange(6, self.serialized@.len() as int)
    }

    /// Frames a message of type `msg_type` whose serialized form is
    /// `payload`.
    ///
    /// The top bit of `extension_type` is set to `channel_msg`. A payload of
    /// `2^24` bytes or more cannot be framed, and only then is `None`
    /// returned.
    pub fn from_message(payload: &[u8], msg_type: u8, extension_type: u16, channel_msg: bool) -> (r:
        Option<StandardFrame>)
        ensures
            match spec_from_message(payload@, msg_type, extension_type, channel_msg) {
                Some(view) => r is Some && view == (FrameView::Standard {
                    header: r.unwrap().spec_header(),
                    payload: r.unwrap().spec_payload(),
                }),
                None => r is None,
            },
    {
        if payload.len() > MAX_MSG_LENGTH as usize {
            return None;
        }
        let msg_length: u32 = payload.len() as u32;
        let header = match Header::new(
            with_channel_flag(extension_type, channel_msg),
            msg_type,
            msg_length,
        ) {
            Ok(h) => h,
            Err(_) => {
                return None;
            },
        };
        let head = header.serialize();
        let mut bytes: Vec<u8> = Vec::new();
        let mut i: usize = 0;
        while i < HEADER_SIZE
            invariant
                i <= 6,
                head@.len() == 6,
                bytes@ == head@.subrange(0, i as int),
            decreases 6 - i,
        {
            bytes.push(head[i]);
            i = i + 1;
        }
        let mut j: usize = 0;
        while j < payload.len()
            invariant
                j <= payload@.len(),
                head@.len() == 6,
                bytes@ == head@ + payload@.subrange(0, j as int),
            decreases payload@.len() - j,
        {
            bytes.push(payload[j]);
            j = j + 1;
        }
        proof {
            assert(bytes@.subrange(0, 6) =~= head@);
            assert(bytes@.subrange(6, bytes@.len() as int) =~= payload@);
        }
        Some(StandardFrame { header, serialized: Slice::from_vec(bytes) })
    }

    /// A frame over `serialized`, whose first six bytes are `header` on the
    /// wire and whose length is what `header` announces.
    pub(crate) fn from_parts(header: Header, serialized: Slice) -> (r: StandardFrame)
        requires
            serialized@.len() == 6 + header@.msg_length,
            serialized@.subrange(0, 6) == spec_serialize(header@),
        ensures
            r.spec_header() == header@,
            r.spec_payload() == serialized@.subrange(6, serialized@.len() as int),
    {
        let _ = header.msg_length();
        StandardFrame { header, serialized }
    }

    /// The header.
    pub fn header(&self) -> (r: &Header)
        ensures
            r@ == self.spec_header(),
            r@.valid(),
    {
        proof {
            use_type_invariant(self);
        }
        &self.header
    }

    /// The payload bytes, whatever backs them.
    pub fn payload(&self) -> (r: &[u8])
        ensures
            r@ == self.spec_payload(),
            r@.len() == self.spec_header().msg_length,
    {
        proof {
            use_type_invariant(self);
        }
        let all = self.serialized.as_ref();
        slice_subrange(all, HEADER_SIZE, all.len())
    }

    /// The header bytes and the payload in one run, as they go on the wire.
    pub fn serialized(&self) -> (r: &[u8])
        ensures
            r@ == spec_serialize(self.spec_header()) + self.spec_payload(),
    {
        proof {
            use_type_invariant(self);
        }
        self.serialized.as_ref()
    }

    /// The number of bytes on the wire: six for the header and the payload.
    pub fn encoded_length(&self) -> (r: usize)
        ensures
            r == 6 + self.spec_payload().len(),
            r == 6 + self.spec_header().msg_length,
    {
        proof {
            use_type_invariant(self);
        }
        self.serialized.len()
    }
}

/// One protocol unit: a handshake blob or a header with its payload.
#[derive(Debug)]
pub enum Frame {
    Handshake(HandshakeFrame),
    Standard(StandardFrame),
}

impl View for Frame {
    type V = FrameView;

    open spec fn view(&self) -> FrameView {
        match self {
            Frame::Handshake(h) => FrameView::Handshake { payload: h.spec_payload() },
            Frame::Standard(s) => FrameView::Standard {
                header: s.spec_header(),
                payload: s.spec_payload(),
            },
        }
    }
}

impl Frame {
    /// The header of a standard frame. A handshake frame has none.
    pub fn header(&self) -> (r: Option<&Header>)
        ensures
            match self@ {
                FrameView::Standard { header, payload } => r is Some && r.unwrap()@ == header,
                FrameView::Handshake { payload } => r is None,
            },
    {
        match self {
            Frame::Handshake(_) => None,
            Frame::Standard(s) => Some(s.header()),
        }
    }

    /// The payload bytes of either kind of frame.
    pub fn payload(&self) -> (r: &[u8])
        ensures
            r@ == self@.payload(),
    {
        match self {
            Frame::Handshake(h) => h.payload(),
            Frame::Standard(s) => s.payload(),
        }
    }

    /// The number of bytes the frame takes on the wire.
    pub fn encoded_length(&self) -> (r: usize)
        ensures
            r == self@.wire().len(),
            self@.valid(),
    {
        match self {
            Frame::Handshake(h) => h.encoded_length(),
            Frame::Standard(s) => {
                let _ = s.header();
                s.encoded_length()
            },
        }
    }
}

} // verus!
