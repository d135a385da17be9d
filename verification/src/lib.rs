//! Wire framing and buffer reuse for a binary mining protocol, and the
//! decisions of the roles that speak it.
//!
//! A connection exchanges messages that start with a six byte header and
//! carry a payload of up to `2^24 - 1` bytes. The core of this crate is the
//! header layout ([`header`]), the two kinds of frame ([`frame`]), the
//! incremental decoder that turns a byte stream into frames ([`decoder`]),
//! the encoder that writes a frame back to bytes ([`encoder`]), and the fixed
//! set of buffer slots that accounts for their buffers ([`slot`], [`slice`],
//! [`pool`]). What holds between them is stated in [`roundtrip`].
//!
//! Around the core stand the roles: a pool, a translator for miners that
//! speak the first version of the protocol, a job declarator, and what a
//! test run needs. Their tasks receive and send; what they decide in between
//! is decided here, from plain values to plain values.

pub mod args;
pub mod channel_factory;
pub mod channel_logic;
pub mod channel_manager;
pub mod coinbase;
pub mod decoder;
pub mod downstream;
pub mod encoder;
pub mod error;
pub mod frame;
pub mod header;
pub mod job_declarator;
pub mod pool;
pub mod roundtrip;
pub mod slice;
pub mod slot;
pub mod sniffer;
pub mod status;
pub mod template_provider;
pub mod text;
