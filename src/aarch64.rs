use vstd::prelude::*;

use crate::bytes::{le_bytes_u32, u32_bytes};
use crate::harness::{check_decoded, decoded_view, judged, Failure};

verus! {

/// One fixture record: a 32-bit instruction word at an address, and the
/// text a decoder must give for it.
#[derive(Debug, Clone)]
pub struct Instruction {
    pub addr: u64,
    pub token: u32,
    pub result: String,
}

impl Instruction {
    /// The instruction word's bytes, least significant first.
    pub fn tokens(&self) -> (r: [u8; 4])
        ensures
            r@ == le_bytes_u32(self.token),
    {
        u32_bytes(self.token, false)
    }
}

/// Runs one record against a decoder: its tokens must decode to the record's
/// text, with the next address four bytes on.
pub fn test_instruction<P>(instruction: &Instruction, parse: &P) -> (r: Result<(), Failure>) where
    P: Fn(&[u8], u64) -> Option<(u64, String)>,

    requires
        forall|t: &[u8], a: u64| #[trigger] parse.requires((t, a)),
    ensures
        exists|t: &[u8], d: Option<(u64, String)>|
            {
                &&& t@ == le_bytes_u32(instruction.token)
                &&& parse.ensures((t, instruction.addr), d)
                &&& judged(
                    t@,
                    instruction.addr as int,
                    4,
                    instruction.result@,
                    decoded_view(d),
                    r,
                )
            },
{
    let token = instruction.tokens();
    let decoded = parse(token.as_slice(), instruction.addr);
    check_decoded(token.as_slice(), instruction.addr, 4, &instruction.result, decoded)
}

} // verus!
