//! The six byte header in front of every standard frame.
//!
//! | field            | bytes | encoding                                   |
//! |------------------|-------|--------------------------------------------|
//! | `extension_type` | 2     | little-endian, top bit = channel message   |
//! | `msg_type`       | 1     |                                            |
//! | `msg_length`     | 3     | little-endian, payload bytes, header apart |

use vstd::prelude::*;

verus! {

/// Number of bytes a header takes on the wire.
pub const HEADER_SIZE: usize = 6;

/// Largest payload length that the three length bytes can carry.
pub const MAX_MSG_LENGTH: u32 = 16777215;

/// The bit of `extension_type` that marks a channel message.
pub const CHANNEL_MSG_FLAG: u16 = 32768;

/// Why a header could not be built.
#[derive(Clone, Copy, Debug, PartialEq, Eq, Structural)]
pub enum Error {
    /// Fewer than six bytes were given, or the payload length does not fit
    /// in 24 bits.
    MalformedHeader,
}

/// What a header says, as plain values.
pub struct HeaderFields {
    pub extension_type: u16,
    pub msg_type: u8,
    pub msg_length: u32,
}

impl HeaderFields {
    /// The payload length fits in 24 bits.
    pub open spec fn valid(self) -> bool {
        self.msg_length <= MAX_MSG_LENGTH
    }

    /// The top bit of `extension_type` is set.
    pub open spec fn channel_msg(self) -> bool {
        self.extension_type >= CHANNEL_MSG_FLAG
    }
}

/// The fields read from six bytes: two little-endian integers around the
/// message type.
pub open spec fn spec_parse(bytes: Seq<u8>) -> HeaderFields
    recommends
        bytes.len() >= 6,
{
    HeaderFields {
        extension_type: (bytes[0] + 256 * bytes[1]) as u16,
        msg_type: bytes[2],
        msg_length: (bytes[3] + 256 * bytes[4] + 65536 * bytes[5]) as u32,
    }
}

/// The six bytes that stand for the fields on the wire.
pub open spec fn spec_serialize(fields: HeaderFields) -> Seq<u8> {
    seq![
        (fields.extension_type % 256) as u8,
        (fields.extension_type / 256) as u8,
        fields.msg_type,
        (fields.msg_length % 256) as u8,
        (fields.msg_length / 256 % 256) as u8,
        (fields.msg_length / 65536 % 256) as u8,
    ]
}

/// `extension_type` with its top bit set to `channel_msg` and the other
/// fifteen bits kept.
pub open spec fn spec_with_channel_flag(extension_type: u16, channel_msg: bool) -> u16 {
    if channel_msg {
        (extension_type % 32768 + 32768) as u16
    } else {
        (extension_type % 32768) as u16
    }
}

/// Sets or clears the channel message bit of an extension type.
pub fn with_channel_flag(extension_type: u16, channel_msg: bool) -> (r: u16)
    ensures
        r == spec_with_channel_flag(extension_type, channel_msg),
        (r >= CHANNEL_MSG_FLAG) == channel_msg,
{
    let low: u16 = extension_type % 32768;
    if channel_msg {
        low + 32768
    } else {
        low
    }
}

/// Extension id, message type and payload length of one frame.
#[derive(Clone, Copy, Debug, PartialEq, Eq, Structural)]
pub struct Header {
    extension_type: u16,
    msg_type: u8,
    msg_length: u32,
}

impl View for Header {
    type V = HeaderFields;

    closed spec fn view(&self) -> HeaderFields {
        HeaderFields {
            extension_type: self.extension_type,
            msg_type: self.msg_type,
            msg_length: self.msg_length,
        }
    }
}

impl Header {
    #[verifier::type_invariant]
    pub closed spec fn well_formed(self) -> bool {
        self.msg_length <= MAX_MSG_LENGTH
    }

    /// Builds a header from its three fields.
    ///
    /// A payload length of `2^24` or more is refused.
    pub fn new(extension_type: u16, msg_type: u8, msg_length: u32) -> (r: Result<Header, Error>)
        ensures
            msg_length <= MAX_MSG_LENGTH ==> r is Ok && r.unwrap()@ == (HeaderFields {
                extension_type,
                msg_type,
                msg_length,
            }),
            msg_length > MAX_MSG_LENGTH ==> r == Err::<Header, Error>(Error::MalformedHeader),
    {
        if msg_length > MAX_MSG_LENGTH {
            Err(Error::MalformedHeader)
        } else {
            Ok(Header { extension_type, msg_type, msg_length })
        }
    }

    /// Reads a header from the first six bytes of `bytes`.
    ///
    /// Fails exactly when fewer than six bytes are given.
    pub fn parse(bytes: &[u8]) -> (r: Result<Header, Error>)
        ensures
            bytes@.len() >= 6 ==> r is Ok && r.unwrap()@ == spec_parse(bytes@)
                && r.unwrap()@.valid(),
            bytes@.len() < 6 ==> r == Err::<Header, Error>(Error::MalformedHeader),
    {
        if bytes.len() < HEADER_SIZE {
            return Err(Error::MalformedHeader);
        }
        let extension_type: u16 = bytes[0] as u16 + 256 * (bytes[1] as u16);
        let msg_type: u8 = bytes[2];
        let msg_length: u32 = bytes[3] as u32 + 256 * (bytes[4] as u32) + 65536 * (bytes[5] as u32);
        Ok(Header { extension_type, msg_type, msg_length })
    }

    /// The six bytes of this header on the wire.
    pub fn serialize(&self) -> (r: [u8; 6])
        ensures
            r@ == spec_serialize(self@),
            self@.valid(),
    {
        proof {
            use_type_invariant(self);
        }
        let r: [u8; 6] = [
            (self.extension_type % 256) as u8,
            (self.extension_type / 256) as u8,
            self.msg_type,
            (self.msg_length % 256) as u8,
            (self.msg_length / 256 % 256) as u8,
            (self.msg_length / 65536 % 256) as u8,
        ];
        r
    }

    /// The extension id, channel message bit included.
    pub fn extension_type(&self) -> (r: u16)
        ensures
            r == self@.extension_type,
    {
        self.extension_type
    }

    /// The message type.
    pub fn msg_type(&self) -> (r: u8)
        ensures
            r == self@.msg_type,
    {
        self.msg_type
    }

    /// The payload length in bytes, header not counted.
    pub fn msg_length(&self) -> (r: u32)
        ensures
            r == self@.msg_length,
            r <= MAX_MSG_LENGTH,
    {
        proof {
            use_type_invariant(self);
        }
        self.msg_length
    }

    /// Whether the payload starts with a channel id.
    pub fn channel_id_present(&self) -> (r: bool)
        ensures
            r == self@.channel_msg(),
    {
        self.extension_type >= CHANNEL_MSG_FLAG
    }
}

/// Parsing what `serialize` wrote gives the fields back.
pub proof fn lemma_parse_serialize(fields: HeaderFields)
    requires
        fields.valid(),
    ensures
        spec_serialize(fields).len() == 6,
        spec_parse(spec_serialize(fields)) == fields,
{
}

/// Serialising what `parse` read gives the six bytes back.
pub proof fn lemma_serialize_parse(bytes: Seq<u8>)
    requires
        bytes.len() == 6,
    ensures
        spec_parse(bytes).valid(),
        spec_serialize(spec_parse(bytes)) == bytes,
{
}

/// Two headers with the same fields are the same header.
pub proof fn lemma_view_injective(a: Header, b: Header)
    requires
        a@ == b@,
    ensures
        a == b,
{
}

} // verus!
