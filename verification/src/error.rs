//! The errors of the translator and how they read in a log.
//!
//! Many of them wrap the error of another component. Such an error is held
//! here as the text that its `Debug` form gives, since that text is all the
//! translator ever does with it. A text or a list of bytes of the
//! translator's own is shown in its `Debug` form too: the text in quotes, the
//! bytes as a list of numbers.

use crate::text::{bracketed, bytes_list, joined, push_str};
use vstd::prelude::*;

verus! {

/// The `Debug` form of a string: the string in double quotes, with the
/// characters that need it escaped.
pub uninterp spec fn debug_of_text(text: Seq<char>) -> Seq<char>;

/// The `Debug` form of `text`.
///
/// Formats with `{:?}`, which for a string slice calls `<str as Debug>::fmt`.
/// The result depends on the characters of the string alone.
#[verifier::external_body]
fn debug_text(text: &str) -> (r: String)
    ensures
        r@ == debug_of_text(text@),
{
    format!("{:?}", text)
}

/// `head`, `middle` and `tail` in one string.
fn framed(head: &str, middle: &str, tail: &str) -> (r: String)
    ensures
        r@ == head@ + middle@ + tail@,
{
    let mut out: String = head.to_owned();
    push_str(&mut out, middle);
    push_str(&mut out, tail);
    out
}

/// What can go wrong in the translator.
#[derive(Debug)]
pub enum TproxyError {
    /// A vector could not be turned into a slice of 32 bytes.
    VecToSlice32(Vec<u8>),
    /// An error of the first version of the protocol.
    SV1Error,
    /// An error of the network helpers.
    NetworkHelpersError(String),
    /// An error of the roles logic.
    RolesSv2LogicError(String),
    /// An error of the message parser.
    ParserError(String),
    /// An error of a message handler.
    RolesSv2LogicHandlerError(String),
    /// Bad arguments on the command line.
    BadCliArgs,
    /// JSON that could not be read or written.
    BadSerdeJson(String),
    /// A configuration that could not be read.
    BadConfigDeserialize(String),
    /// An error of the binary codec.
    BinarySv2(String),
    /// A failed noise handshake.
    CodecNoise(String),
    /// An error of the framing.
    FramingSv2(String),
    /// A failed connection.
    Io(String),
    /// An extranonce from upstream that cannot be used.
    InvalidExtranonce(String),
    /// A string that is no integer.
    ParseInt(String),
    /// A message from upstream that could not be read.
    UpstreamIncoming(String),
    /// An error of the mining subprotocol.
    SubprotocolMining(String),
    /// A poisoned lock.
    PoisonLock,
    /// A channel that could not be received from.
    ChannelErrorReceiver(String),
    /// A channel that could not be sent to.
    ChannelErrorSender,
    /// A broadcast channel that could not be received from.
    BroadcastChannelErrorReceiver(String),
    /// A channel of the runtime that could not be received from.
    TokioChannelErrorRecv(String),
    /// A difficulty that could not be turned into a message.
    SetDifficultyToMessage(String),
    /// A target that could not be computed.
    TargetError(String),
    /// A message of the first version that is too long.
    Sv1MessageTooLong,
    /// A message of a type that was not expected.
    UnexpectedMessage,
    /// A share for a job that is not known.
    JobNotFound,
    /// A share with a wrong merkle root.
    InvalidMerkleRoot,
    /// The signal to shut down.
    Shutdown,
    /// Anything else, in words.
    General(String),
    /// An error of the translation between the two versions.
    TranslatorCore(String),
}

/// How an error of the translator reads in a log.
pub open spec fn spec_describe(e: TproxyError) -> Seq<char> {
    match e {
        TproxyError::General(t) => t@,
        TproxyError::BadCliArgs => "Bad CLI arg input"@,
        TproxyError::BadSerdeJson(t) => "Bad serde json: `"@ + t@ + "`"@,
        TproxyError::BadConfigDeserialize(t) => "Bad `config` TOML deserialize: `"@ + t@ + "`"@,
        TproxyError::BinarySv2(t) => "Binary SV2 error: `"@ + t@ + "`"@,
        TproxyError::CodecNoise(t) => "Noise error: `"@ + t@,
        TproxyError::FramingSv2(t) => "Framing SV2 error: `"@ + t@ + "`"@,
        TproxyError::InvalidExtranonce(t) => "Invalid Extranonce error: `"@ + debug_of_text(t@),
        TproxyError::Io(t) => "I/O error: `"@ + t@,
        TproxyError::ParseInt(t) => "Bad convert from `String` to `int`: `"@ + t@ + "`"@,
        TproxyError::SubprotocolMining(t) => "Subprotocol Mining Error: `"@ + debug_of_text(t@)
            + "`"@,
        TproxyError::UpstreamIncoming(t) => "Upstream parse incoming error: `"@ + t@ + "`"@,
        TproxyError::PoisonLock => "Poison Lock error"@,
        TproxyError::ChannelErrorReceiver(t) => "Channel receive error: `"@ + t@ + "`"@,
        TproxyError::BroadcastChannelErrorReceiver(t) => "Broadcast channel receive error: "@ + t@,
        TproxyError::ChannelErrorSender => "Sender error"@,
        TproxyError::TokioChannelErrorRecv(t) => "Channel receive error: `"@ + t@ + "`"@,
        TproxyError::SetDifficultyToMessage(t) => "Error converting SetDifficulty to Message: `"@
            + t@ + "`"@,
        TproxyError::VecToSlice32(v) => "Standard Error: `"@ + bracketed(v@) + "`"@,
        TproxyError::TargetError(t) => "Impossible to get target from hashrate: `"@ + t@ + "`"@,
        TproxyError::Sv1MessageTooLong => "Received an sv1 message that is longer than max len"@,
        TproxyError::UnexpectedMessage => "Received a message type that was not expected"@,
        TproxyError::JobNotFound => "Job not found during share validation"@,
        TproxyError::InvalidMerkleRoot => "Invalid merkle root during share validation"@,
        TproxyError::Shutdown => "Shutdown signal"@,
        TproxyError::SV1Error => "Sv1 error"@,
        TproxyError::TranslatorCore(t) => "Translator core error: "@ + t@,
        TproxyError::NetworkHelpersError(t) => "Network helpers error: "@ + t@,
        TproxyError::RolesSv2LogicError(t) => "Roles logic error: "@ + t@,
        TproxyError::ParserError(t) => "Roles logic parser error: "@ + t@,
        TproxyError::RolesSv2LogicHandlerError(t) => "Roles logic handler error: "@ + t@,
    }
}

impl TproxyError {
    /// How the error reads in a log.
    pub fn describe(&self) -> (r: String)
        ensures
            r@ == spec_describe(*self),
    {
        match self {
            TproxyError::General(t) => t.clone(),
            TproxyError::BadCliArgs => "Bad CLI arg input".to_owned(),
            TproxyError::BadSerdeJson(t) => framed("Bad serde json: `", t.as_str(), "`"),
            TproxyError::BadConfigDeserialize(t) => framed(
                "Bad `config` TOML deserialize: `",
                t.as_str(),
                "`",
            ),
            TproxyError::BinarySv2(t) => framed("Binary SV2 error: `", t.as_str(), "`"),
            TproxyError::CodecNoise(t) => joined("Noise error: `", t.as_str()),
            TproxyError::FramingSv2(t) => framed("Framing SV2 error: `", t.as_str(), "`"),
            TproxyError::InvalidExtranonce(t) => {
                let shown = debug_text(t.as_str());
                joined("Invalid Extranonce error: `", shown.as_str())
            },
            TproxyError::Io(t) => joined("I/O error: `", t.as_str()),
            TproxyError::ParseInt(t) => framed(
                "Bad convert from `String` to `int`: `",
                t.as_str(),
                "`",
            ),
            TproxyError::SubprotocolMining(t) => {
                let shown = debug_text(t.as_str());
                framed("Subprotocol Mining Error: `", shown.as_str(), "`")
            },
            TproxyError::UpstreamIncoming(t) => framed(
                "Upstream parse incoming error: `",
                t.as_str(),
                "`",
            ),
            TproxyError::PoisonLock => "Poison Lock error".to_owned(),
            TproxyError::ChannelErrorReceiver(t) => framed(
                "Channel receive error: `",
                t.as_str(),
                "`",
            ),
            TproxyError::BroadcastChannelErrorReceiver(t) => joined("Broadcast channel receive error: ", t.as_str()),
            TproxyError::ChannelErrorSender => "Sender error".to_owned(),
            TproxyError::TokioChannelErrorRecv(t) => framed(
                "Channel receive error: `",
                t.as_str(),
                "`",
            ),
            TproxyError::SetDifficultyToMessage(t) => framed(
                "Error converting SetDifficulty to Message: `",
                t.as_str(),
                "`",
            ),
            TproxyError::VecToSlice32(v) => {
                let shown = bytes_list(v.as_slice());
                framed("Standard Error: `", shown.as_str(), "`")
            },
            TproxyError::TargetError(t) => framed(
                "Impossible to get target from hashrate: `",
                t.as_str(),
                "`",
            ),
            TproxyError::Sv1MessageTooLong => "Received an sv1 message that is longer than max len".to_owned(),
            TproxyError::UnexpectedMessage => "Received a message type that was not expected".to_owned(),
            TproxyError::JobNotFound => "Job not found during share validation".to_owned(),
            TproxyError::InvalidMerkleRoot => "Invalid merkle root during share validation".to_owned(),
            TproxyError::Shutdown => "Shutdown signal".to_owned(),
            TproxyError::SV1Error => "Sv1 error".to_owned(),
            TproxyError::TranslatorCore(t) => joined("Translator core error: ", t.as_str()),
            TproxyError::NetworkHelpersError(t) => joined("Network helpers error: ", t.as_str()),
            TproxyError::RolesSv2LogicError(t) => joined("Roles logic error: ", t.as_str()),
            TproxyError::ParserError(t) => joined("Roles logic parser error: ", t.as_str()),
            TproxyError::RolesSv2LogicHandlerError(t) => joined("Roles logic handler error: ", t.as_str()),
        }
    }

    /// The error for a vector that is no slice of 32 bytes.
    pub fn from_vec(bytes: Vec<u8>) -> (r: TproxyError)
        ensures
            r == TproxyError::VecToSlice32(bytes),
    {
        TproxyError::VecToSlice32(bytes)
    }
}

/// A message that the translator's bridge could not send, as the text of
/// the failed send.
#[derive(Debug)]
pub enum BridgeChannelSendError {
    Notify(String),
    SubmitSharesExtended(String),
}

/// What can go wrong in the translator's bridge between the two sides.
#[derive(Debug)]
pub enum TProxyBridgeError {
    PoisonLock,
    ChannelSender(BridgeChannelSendError),
    ChannelReceiver(String),
    RolesSv2Logic(String),
    SubprotocolMining(String),
    BinarySv2(String),
    ParseInt(String),
    V1Protocol(String),
    VecToSlice32(Vec<u8>),
}

/// What can go wrong on the translator's downstream side.
#[derive(Debug)]
pub enum TProxyDownstreamError {
    PoisonLock,
    BinarySv2(String),
    Send(String),
    V1(String),
    V1MessageTooLong,
    ParseLength(String),
    Target(String),
    ConnectionAborted,
    BadSerdeJson(String),
    ChannelReceiver(String),
    TokioChannelErrorRecv(String),
    Io(String),
}

/// A message that the translator's upstream side could not send, as the text
/// of the failed send.
#[derive(Debug)]
pub enum UpstreamChannelSendError {
    SubmitSharesExtended(String),
    SetNewPrevHash(String),
    NewExtendedMiningJob(String),
    Notify(String),
    V1Message(String),
    General(String),
    Extranonce(String),
    SetCustomMiningJob(String),
    NewTemplate(String),
}

/// What can go wrong on the translator's upstream side.
#[derive(Debug)]
pub enum TProxyUpstreamError {
    PoisonLock,
    /// A failed connection, as its `Display` form.
    Io(String),
    CodecNoise(String),
    /// An error of the roles logic, as its `Display` form.
    RolesSv2Logic(String),
    BinarySv2(String),
    FramingSv2(String),
    ChannelSender(String),
    ChannelReceiver(String),
    InvalidExtranonce(String),
    SubprotocolMining(String),
}

/// How an error of the upstream side reads in a log.
pub open spec fn spec_describe_upstream(e: TProxyUpstreamError) -> Seq<char> {
    match e {
        TProxyUpstreamError::PoisonLock => "Poisoned lock detected"@,
        TProxyUpstreamError::Io(t) => "IO error: "@ + t@,
        TProxyUpstreamError::CodecNoise(t) => "Codec noise error: "@ + t@,
        TProxyUpstreamError::RolesSv2Logic(t) => "Roles SV2 Logic error: "@ + t@,
        TProxyUpstreamError::BinarySv2(t) => "Binary SV2 error: "@ + t@,
        TProxyUpstreamError::FramingSv2(t) => "Framing SV2 error: `"@ + t@ + "`"@,
        TProxyUpstreamError::ChannelSender(t) => "Channel Sender error: "@ + t@,
        TProxyUpstreamError::ChannelReceiver(t) => "Channel Receiver error: "@ + t@,
        TProxyUpstreamError::InvalidExtranonce(t) => "Invalid Extranonce error: "@ + debug_of_text(
            t@,
        ),
        TProxyUpstreamError::SubprotocolMining(t) => "Subprotocol Mining error: "@ + debug_of_text(
            t@,
        ),
    }
}

impl TProxyUpstreamError {
    /// How the error reads in a log.
    pub fn describe(&self) -> (r: String)
        ensures
            r@ == spec_describe_upstream(*self),
    {
        match self {
            TProxyUpstreamError::PoisonLock => "Poisoned lock detected".to_owned(),
            TProxyUpstreamError::Io(t) => joined("IO error: ", t.as_str()),
            TProxyUpstreamError::CodecNoise(t) => joined("Codec noise error: ", t.as_str()),
            TProxyUpstreamError::RolesSv2Logic(t) => joined("Roles SV2 Logic error: ", t.as_str()),
            TProxyUpstreamError::BinarySv2(t) => joined("Binary SV2 error: ", t.as_str()),
            TProxyUpstreamError::FramingSv2(t) => framed("Framing SV2 error: `", t.as_str(), "`"),
            TProxyUpstreamError::ChannelSender(t) => joined("Channel Sender error: ", t.as_str()),
            TProxyUpstreamError::ChannelReceiver(t) => joined("Channel Receiver error: ", t.as_str()),
            TProxyUpstreamError::InvalidExtranonce(t) => {
                let shown = debug_text(t.as_str());
                joined("Invalid Extranonce error: ", shown.as_str())
            },
            TProxyUpstreamError::SubprotocolMining(t) => {
                let shown = debug_text(t.as_str());
                joined("Subprotocol Mining error: ", shown.as_str())
            },
        }
    }
}

} // verus!
