use vstd::prelude::*;

use crate::bytes::copy_bytes;

verus! {

/// How a record that did not fail was settled.
#[derive(Debug, Clone, Copy, PartialEq, Eq, Structural)]
pub enum Outcome {
    /// The decoder's text and next address matched the record.
    Verified,
    /// The record's version range excludes the version under test.
    FilteredOut,
    /// The record needs the secondary decoding mode, which the decoder lacks.
    ModeUnsupported,
}

/// Why a record failed; each variant carries what a human needs to triage it.
#[derive(Debug)]
pub enum Failure {
    /// The decoder could not decode the tokens.
    Undecodable { tokens: Vec<u8>, expected: String },
    /// The decoder's text or next address disagrees with the record.
    Mismatch {
        tokens: Vec<u8>,
        address: u64,
        actual_text: String,
        expected_text: String,
        actual_next: u64,
        width: u64,
    },
}

/// A decoder's answer with the address widened and the text as characters.
pub open spec fn decoded_view(d: Option<(u64, String)>) -> Option<(int, Seq<char>)> {
    match d {
        Some((next, text)) => Some((next as int, text@)),
        None => None,
    }
}

/// Whether a decoded answer agrees with the record: the same text, and the
/// next address exactly `width` past the instruction's address.
pub open spec fn agrees(
    address: int,
    width: int,
    expected: Seq<char>,
    next: int,
    text: Seq<char>,
) -> bool {
    text == expected && next == address + width
}

/// The verdict on one decoded record: `Ok` when the decoder agrees with it,
/// otherwise the failure that names the tokens and both sides of the comparison.
pub open spec fn judged(
    tokens: Seq<u8>,
    address: int,
    width: int,
    expected: Seq<char>,
    decoded: Option<(int, Seq<char>)>,
    r: Result<(), Failure>,
) -> bool {
    match decoded {
        None => match r {
            Err(Failure::Undecodable { tokens: t, expected: e }) => t@ == tokens && e@ == expected,
            _ => false,
        },
        Some((next, text)) => if agrees(address, width, expected, next, text) {
            r is Ok
        } else {
            match r {
                Err(Failure::Mismatch { tokens: t, address: a, actual_text, expected_text, actual_next, width: w }) => {
                    &&& t@ == tokens
                    &&& a == address
                    &&& actual_text@ == text
                    &&& expected_text@ == expected
                    &&& actual_next == next
                    &&& w == width
                },
                _ => false,
            }
        },
    }
}

/// The verdict on one decoded record, where a pass is reported as `Verified`.
pub open spec fn settled(
    tokens: Seq<u8>,
    address: int,
    width: int,
    expected: Seq<char>,
    decoded: Option<(int, Seq<char>)>,
    r: Result<Outcome, Failure>,
) -> bool {
    match r {
        Ok(o) => o == Outcome::Verified && judged(tokens, address, width, expected, decoded, Ok(())),
        Err(f) => judged(tokens, address, width, expected, decoded, Err(f)),
    }
}

/// A decoder's answer with a 32-bit address, as characters.
pub open spec fn decoded_view_u32(d: Option<(u32, String)>) -> Option<(int, Seq<char>)> {
    match d {
        Some((next, text)) => Some((next as int, text@)),
        None => None,
    }
}

/// A decoder's answer with a 16-bit address, as characters.
pub open spec fn decoded_view_u16(d: Option<(u16, String)>) -> Option<(int, Seq<char>)> {
    match d {
        Some((next, text)) => Some((next as int, text@)),
        None => None,
    }
}

/// Widens the address of a decoder's answer to 64 bits.
pub fn widen_u32(d: Option<(u32, String)>) -> (r: Option<(u64, String)>)
    ensures
        decoded_view(r) == decoded_view_u32(d),
{
    match d {
        Some((next, text)) => Some((next as u64, text)),
        None => None,
    }
}

/// Widens the address of a decoder's answer to 64 bits.
pub fn widen_u16(d: Option<(u16, String)>) -> (r: Option<(u64, String)>)
    ensures
        decoded_view(r) == decoded_view_u16(d),
{
    match d {
        Some((next, text)) => Some((next as u64, text)),
        None => None,
    }
}

/// Judges a decoder's answer for the instruction held in `tokens` at `address`,
/// which must advance the address by `width`.
pub fn check_decoded(
    tokens: &[u8],
    address: u64,
    width: u64,
    expected: &String,
    decoded: Option<(u64, String)>,
) -> (r: Result<(), Failure>)
    ensures
        judged(tokens@, address as int, width as int, expected@, decoded_view(decoded), r),
{
    match decoded {
        None => Err(Failure::Undecodable { tokens: copy_bytes(tokens), expected: expected.clone() }),
        Some((next, text)) => {
            let text_ok = text == *expected;
            let next_ok = match address.checked_add(width) {
                Some(end) => next == end,
                None => false,
            };
            if text_ok && next_ok {
                Ok(())
            } else {
                Err(
                    Failure::Mismatch {
                        tokens: copy_bytes(tokens),
                        address,
                        actual_text: text,
                        expected_text: expected.clone(),
                        actual_next: next,
                        width,
                    },
                )
            }
        },
    }
}

} // verus!
