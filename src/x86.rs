use vstd::prelude::*;

use vstd::utf8::encode_utf8;

use crate::harness::{check_decoded, decoded_view, judged, Failure};

verus! {

/// Whether `b` is the ASCII code of a hexadecimal digit, in either case.
pub open spec fn is_hex_digit(b: u8) -> bool {
    (48 <= b && b <= 57) || (97 <= b && b <= 102) || (65 <= b && b <= 70)
}

/// The value of the hexadecimal digit `b`.
pub open spec fn digit_value(b: u8) -> u8 {
    if 48 <= b && b <= 57 {
        (b - 48) as u8
    } else if 97 <= b && b <= 102 {
        (b - 87) as u8
    } else {
        (b - 55) as u8
    }
}

/// Every byte of `s` is a hexadecimal digit.
pub open spec fn is_hex(s: Seq<u8>) -> bool {
    forall|i: int| 0 <= i < s.len() ==> is_hex_digit(#[trigger] s[i])
}

/// The bytes that a string of hexadecimal digits spells, two digits to a
/// byte, high digit first; a last lone digit is a byte of its own.
pub open spec fn hex_bytes(s: Seq<u8>) -> Seq<u8> {
    Seq::new(
        ((s.len() + 1) / 2) as nat,
        |j: int|
            if 2 * j + 1 < s.len() {
                (16 * digit_value(s[2 * j]) + digit_value(s[2 * j + 1])) as u8
            } else {
                digit_value(s[2 * j])
            },
    )
}

fn hex_digit(b: u8) -> (r: Option<u8>)
    ensures
        r == (if is_hex_digit(b) {
            Some(digit_value(b))
        } else {
            None::<u8>
        }),
        r matches Some(v) ==> v < 16,
{
    if 48 <= b && b <= 57 {
        Some(b - 48)
    } else if 97 <= b && b <= 102 {
        Some(b - 87)
    } else if 65 <= b && b <= 70 {
        Some(b - 55)
    } else {
        None
    }
}

/// Reads the bytes that a string of hexadecimal digits spells; `None` when
/// any byte is not a hexadecimal digit.
pub fn parse_hex(s: &[u8]) -> (r: Option<Vec<u8>>)
    ensures
        (r is Some) <==> is_hex(s@),
        (r matches Some(v) ==> v@ == hex_bytes(s@)),
{
    let mut out: Vec<u8> = Vec::new();
    let mut i: usize = 0;
    while i + 1 < s.len()
        invariant
            i % 2 == 0,
            i <= s@.len(),
            out@.len() == i / 2,
            forall|k: int| 0 <= k < i ==> is_hex_digit(#[trigger] s@[k]),
            forall|j: int| 0 <= j < i / 2 ==> #[trigger] out@[j] == hex_bytes(s@)[j],
        decreases s@.len() - i,
    {
        let hi = match hex_digit(s[i]) {
            Some(v) => v,
            None => {
                assert(!is_hex_digit(s@[i as int]));
                return None;
            },
        };
        let lo = match hex_digit(s[i + 1]) {
            Some(v) => v,
            None => {
                assert(!is_hex_digit(s@[i + 1]));
                return None;
            },
        };
        out.push(16 * hi + lo);
        i = i + 2;
    }
    if i < s.len() {
        match hex_digit(s[i]) {
            Some(v) => out.push(v),
            None => {
                assert(!is_hex_digit(s@[i as int]));
                return None;
            },
        }
    }
    assert(out@ =~= hex_bytes(s@));
    Some(out)
}

/// One fixture record: an instruction's bytes at an address, and the text a
/// decoder must give for them.
#[derive(Debug, Clone)]
pub struct Instruction {
    pub addr: u64,
    pub token: Vec<u8>,
    pub result: String,
}

/// One row of a fixture file, field for field: the bytes are written as
/// hexadecimal digits.
#[derive(Debug, Clone)]
pub struct InstructionSerialized {
    pub addr: u64,
    pub token: String,
    pub result: String,
}

impl Instruction {
    /// The record of a well-formed fixture row, whose bytes are written in
    /// hexadecimal digits.
    pub fn from_serialized(value: InstructionSerialized) -> (r: Instruction)
        requires
            is_hex(encode_utf8(value.token@)),
        ensures
            r.addr == value.addr,
            r.token@ == hex_bytes(encode_utf8(value.token@)),
            r.result@ == value.result@,
    {
        match parse_hex(value.token.as_str().as_bytes()) {
            Some(token) => Instruction { addr: value.addr, token, result: value.result },
            None => unreached(),
        }
    }
}

/// Runs one record against a decoder: its bytes must decode to the record's
/// text, with the next address as many bytes on as there are.
pub fn test_instruction<P>(instruction: &Instruction, parse: &P) -> (r: Result<(), Failure>) where
    P: Fn(&[u8], u64) -> Option<(u64, String)>,

    requires
        forall|t: &[u8], a: u64| #[trigger] parse.requires((t, a)),
    ensures
        exists|t: &[u8], d: Option<(u64, String)>|
            {
                &&& t@ == instruction.token@
                &&& parse.ensures((t, instruction.addr), d)
                &&& judged(
                    t@,
                    instruction.addr as int,
                    t@.len() as int,
                    instruction.result@,
                    decoded_view(d),
                    r,
                )
            },
{
    let token = instruction.token.as_slice();
    let decoded = parse(token, instruction.addr);
    let width = token.len() as u64;
    check_decoded(token, instruction.addr, width, &instruction.result, decoded)
}

} // verus!
