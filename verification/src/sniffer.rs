//! The record that a sniffer keeps of the messages it has passed on, and the
//! question whether a message that a test waits for is in it.

use crate::text::reads_as;
use vstd::prelude::*;
use vstd::utf8::encode_utf8;

verus! {

/// Why a sniffer stopped passing messages on.
#[derive(Clone, Copy, Debug, PartialEq, Eq, Structural)]
pub enum SnifferError {
    DownstreamClosed,
    UpstreamClosed,
}

/// A message of the first version of the protocol, as far as a test can ask
/// for it.
#[derive(Debug)]
pub enum Sv1Message {
    /// A request, with its method.
    StandardRequest { method: String },
    /// A notification, with its method.
    Notification { method: String },
    /// A response, written out as JSON; `None` where it could not be
    /// written.
    OkResponse { json: Option<String> },
    /// An error response, with the message of its error.
    ErrorResponse { message: String },
}

/// `needle` occurs in `haystack` as a run of consecutive bytes. Texts are
/// compared by their bytes in UTF-8.
pub open spec fn occurs_in(needle: Seq<u8>, haystack: Seq<u8>) -> bool {
    exists|i: int|
        0 <= i && i + needle.len() <= haystack.len() && #[trigger] haystack.subrange(
            i,
            i + needle.len(),
        ) == needle
}

/// Every text of `expected` occurs in `text`.
pub open spec fn all_occur_in(expected: Seq<&str>, text: Seq<u8>) -> bool {
    forall|k: int|
        0 <= k < expected.len() ==> occurs_in(encode_utf8((#[trigger] expected[k])@), text)
}

/// `expected` can be held against `message`. A response is held against all
/// the texts, however many; anything else against the first, so there has to
/// be one.
pub open spec fn askable(message: Sv1Message, expected: Seq<&str>) -> bool {
    expected.len() > 0 || message is OkResponse
}

/// `message` is what `expected` asks for.
///
/// A request, a notification or an error response is asked for by the first
/// text alone: its method, or the message of its error, reads exactly so. A
/// response is asked for by all the texts together: each occurs in its JSON.
pub open spec fn spec_is_expected(message: Sv1Message, expected: Seq<&str>) -> bool
    recommends
        askable(message, expected),
{
    match message {
        Sv1Message::StandardRequest { method } => method@ == expected[0]@,
        Sv1Message::Notification { method } => method@ == expected[0]@,
        Sv1Message::OkResponse { json } => match json {
            Some(text) => all_occur_in(expected, encode_utf8(text@)),
            None => false,
        },
        Sv1Message::ErrorResponse { message } => message@ == expected[0]@,
    }
}

/// Whether `needle` starts at position `at` of `haystack`.
fn starts_at(needle: &[u8], haystack: &[u8], at: usize) -> (r: bool)
    requires
        at + needle@.len() <= haystack@.len(),
    ensures
        r == (haystack@.subrange(at as int, at + needle@.len()) == needle@),
{
    let len = haystack.len();
    let mut j: usize = 0;
    while j < needle.len()
        invariant
            j <= needle@.len(),
            len == haystack@.len(),
            at + needle@.len() <= haystack@.len(),
            forall|k: int| 0 <= k < j ==> haystack@[at + k] == needle@[k],
        decreases needle@.len() - j,
    {
        if haystack[at + j] != needle[j] {
            return false;
        }
        j = j + 1;
    }
    proof {
        assert(haystack@.subrange(at as int, at + needle@.len()) =~= needle@);
    }
    true
}

/// Whether `needle` occurs in `haystack`.
pub fn contains(haystack: &[u8], needle: &[u8]) -> (r: bool)
    ensures
        r == occurs_in(needle@, haystack@),
{
    if needle.len() > haystack.len() {
        return false;
    }
    if needle.len() == 0 {
        proof {
            assert(haystack@.subrange(0int, 0int + needle@.len()) =~= needle@);
        }
        return true;
    }
    let last: usize = haystack.len() - needle.len();
    let mut i: usize = 0;
    while i <= last
        invariant
            i <= last + 1,
            last < usize::MAX,
            last == haystack@.len() - needle@.len(),
            forall|k: int|
                0 <= k < i ==> #[trigger] haystack@.subrange(k, k + needle@.len()) != needle@,
        decreases last + 1 - i,
    {
        if starts_at(needle, haystack, i) {
            return true;
        }
        i = i + 1;
    }
    false
}

/// Whether `message` is what `expected` asks for.
pub fn is_expected(message: &Sv1Message, expected: &[&str]) -> (r: bool)
    requires
        askable(*message, expected@),
    ensures
        r == spec_is_expected(*message, expected@),
{
    match message {
        Sv1Message::StandardRequest { method } => reads_as(method.as_str(), expected[0]),
        Sv1Message::Notification { method } => reads_as(method.as_str(), expected[0]),
        Sv1Message::OkResponse { json } => match json {
            Some(text) => {
                let bytes = text.as_str().as_bytes();
                let mut k: usize = 0;
                while k < expected.len()
                    invariant
                        k <= expected@.len(),
                        *message == (Sv1Message::OkResponse { json: Some(*text) }),
                        bytes@ == encode_utf8(text@),
                        forall|j: int|
                            0 <= j < k ==> occurs_in(
                                encode_utf8((#[trigger] expected@[j])@),
                                bytes@,
                            ),
                    decreases expected@.len() - k,
                {
                    if !contains(bytes, expected[k].as_bytes()) {
                        return false;
                    }
                    k = k + 1;
                }
                true
            },
            None => false,
        },
        Sv1Message::ErrorResponse { message } => reads_as(message.as_str(), expected[0]),
    }
}

/// The messages that a sniffer has passed on in one direction, oldest first.
#[derive(Debug)]
pub struct MessagesAggregatorSV1 {
    messages: Vec<Sv1Message>,
}

impl View for MessagesAggregatorSV1 {
    type V = Seq<Sv1Message>;

    closed spec fn view(&self) -> Seq<Sv1Message> {
        self.messages@
    }
}

impl MessagesAggregatorSV1 {
    /// An empty record.
    pub fn new() -> (r: Self)
        ensures
            r@ == Seq::<Sv1Message>::empty(),
    {
        Self { messages: Vec::new() }
    }

    /// Adds `message` at the end of the record.
    pub fn add_message(&mut self, message: Sv1Message)
        ensures
            final(self)@ == old(self)@.push(message),
    {
        self.messages.push(message);
    }

    /// Whether a message that `expected_msg` asks for is in the record.
    pub fn has_message(&self, expected_msg: &[&str]) -> (r: bool)
        requires
            forall|i: int| 0 <= i < self@.len() ==> askable(#[trigger] self@[i], expected_msg@),
        ensures
            r == exists|i: int|
                0 <= i < self@.len() && spec_is_expected(#[trigger] self@[i], expected_msg@),
    {
        let mut i: usize = 0;
        while i < self.messages.len()
            invariant
                i <= self.messages@.len(),
                forall|j: int| 0 <= j < self@.len() ==> askable(#[trigger] self@[j], expected_msg@),
                forall|j: int| 0 <= j < i ==> !spec_is_expected(#[trigger] self@[j], expected_msg@),
            decreases self.messages@.len() - i,
        {
            proof {
                assert(askable(self@[i as int], expected_msg@));
            }
            if is_expected(&self.messages[i], expected_msg) {
                proof {
                    assert(spec_is_expected(self@[i as int], expected_msg@));
                }
                return true;
            }
            i = i + 1;
        }
        false
    }
}

} // verus!
