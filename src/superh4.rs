use vstd::prelude::*;

use crate::bytes::{bytes_u16, u16_bytes};
use crate::harness::{check_decoded, decoded_view_u32, judged, widen_u32, Failure};

verus! {

/// One fixture record: a 16-bit instruction word at an address, and the
/// text a decoder must give for it.
#[derive(Debug, Clone)]
pub struct Instruction {
    pub addr: u32,
    pub token: u16,
    pub result: String,
}

impl Instruction {
    /// The instruction word's bytes in the requested order.
    pub fn to_tokens(&self, big_endian: bool) -> (r: [u8; 2])
        ensures
            r@ == bytes_u16(self.token, big_endian),
    {
        u16_bytes(self.token, big_endian)
    }
}

/// Runs one record against a decoder: its tokens, in the given byte order,
/// must decode to the record's text, with the next address two bytes on.
pub fn test_instruction<P>(instruction: &Instruction, big_endian: bool, parse: &P) -> (r: Result<
    (),
    Failure,
>) where P: Fn(&[u8], u32) -> Option<(u32, String)>,

    requires
        forall|t: &[u8], a: u32| #[trigger] parse.requires((t, a)),
    ensures
        exists|t: &[u8], d: Option<(u32, String)>|
            {
                &&& t@ == bytes_u16(instruction.token, big_endian)
                &&& parse.ensures((t, instruction.addr), d)
                &&& judged(
                    t@,
                    instruction.addr as int,
                    2,
                    instruction.result@,
                    decoded_view_u32(d),
                    r,
                )
            },
{
    let token = instruction.to_tokens(big_endian);
    let decoded = parse(token.as_slice(), instruction.addr);
    check_decoded(token.as_slice(), instruction.addr as u64, 2, &instruction.result, widen_u32(decoded))
}

} // verus!
