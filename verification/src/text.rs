//! Small helpers on strings that several modules share.

use vstd::prelude::*;

verus! {

/// Whether `arg` reads exactly as `text`.
pub fn reads_as(arg: &str, text: &str) -> (r: bool)
    ensures
        r == (arg@ == text@),
{
    let a: String = arg.to_owned();
    let b: String = text.to_owned();
    a == b
}

/// Appends `tail` to `text`.
///
/// Calls `String::push_str`, which appends the given string slice to the end
/// of the string and leaves what was there untouched.
#[verifier::external_body]
pub(crate) fn push_str(text: &mut String, tail: &str)
    ensures
        final(text)@ == old(text)@ + tail@,
{
    text.push_str(tail);
}

/// `head` followed by `tail`.
pub fn joined(head: &str, tail: &str) -> (r: String)
    ensures
        r@ == head@ + tail@,
{
    let mut out: String = head.to_owned();
    push_str(&mut out, tail);
    out
}

/// The digit `d` as text.
pub open spec fn digit(d: nat) -> Seq<char>
    recommends
        d < 10,
{
    if d == 0 {
        "0"@
    } else if d == 1 {
        "1"@
    } else if d == 2 {
        "2"@
    } else if d == 3 {
        "3"@
    } else if d == 4 {
        "4"@
    } else if d == 5 {
        "5"@
    } else if d == 6 {
        "6"@
    } else if d == 7 {
        "7"@
    } else if d == 8 {
        "8"@
    } else {
        "9"@
    }
}

/// `n` in decimal, without sign and without leading zeros.
pub open spec fn decimal(n: nat) -> Seq<char>
    decreases n,
{
    if n < 10 {
        digit(n)
    } else {
        decimal(n / 10) + digit(n % 10)
    }
}

/// The items of `bytes` in decimal, separated by a comma and a space.
pub open spec fn listed(bytes: Seq<u8>) -> Seq<char>
    decreases bytes.len(),
{
    if bytes.len() == 0 {
        Seq::empty()
    } else if bytes.len() == 1 {
        decimal(bytes[0] as nat)
    } else {
        listed(bytes.drop_last()) + ", "@ + decimal(bytes.last() as nat)
    }
}

/// `bytes` as a list in square brackets, the way a list of numbers is shown
/// for debugging.
pub open spec fn bracketed(bytes: Seq<u8>) -> Seq<char> {
    "["@ + listed(bytes) + "]"@
}

/// The digit `d` as text.
fn digit_text(d: u32) -> (r: &'static str)
    requires
        d < 10,
    ensures
        r@ == digit(d as nat),
{
    match d {
        0 => "0",
        1 => "1",
        2 => "2",
        3 => "3",
        4 => "4",
        5 => "5",
        6 => "6",
        7 => "7",
        8 => "8",
        _ => "9",
    }
}

/// Appends `n` in decimal to `text`.
pub fn push_decimal(text: &mut String, n: u32)
    ensures
        final(text)@ == old(text)@ + decimal(n as nat),
    decreases n,
{
    if n >= 10 {
        push_decimal(text, n / 10);
    }
    push_str(text, digit_text(n % 10));
}

/// `head` followed by `n` in decimal.
pub fn numbered(head: &str, n: u32) -> (r: String)
    ensures
        r@ == head@ + decimal(n as nat),
{
    let mut out: String = head.to_owned();
    push_decimal(&mut out, n);
    out
}

/// `bytes` as a list in square brackets.
pub fn bytes_list(bytes: &[u8]) -> (r: String)
    ensures
        r@ == bracketed(bytes@),
{
    let mut out: String = "[".to_owned();
    let mut i: usize = 0;
    while i < bytes.len()
        invariant
            i <= bytes@.len(),
            out@ == "["@ + listed(bytes@.subrange(0, i as int)),
        decreases bytes@.len() - i,
    {
        let ghost before = bytes@.subrange(0, i as int);
        let ghost after = bytes@.subrange(0, i + 1);
        proof {
            assert(after.drop_last() =~= before);
            assert(after.last() == bytes@[i as int]);
        }
        if i > 0 {
            push_str(&mut out, ", ");
        }
        push_decimal(&mut out, bytes[i] as u32);
        i = i + 1;
    }
    proof {
        assert(bytes@.subrange(0, bytes@.len() as int) =~= bytes@);
    }
    push_str(&mut out, "]");
    out
}

} // verus!
