use vstd::prelude::*;

use crate::bytes::{
    copy_bytes, le_bytes_u16, le_bytes_u32, lemma_u16_round_trip, lemma_u32_round_trip, read_u16,
    read_u32, u16_bytes, u32_bytes,
};
use crate::harness::{check_decoded, decoded_view_u32, judged, widen_u32, Failure};

verus! {

/// An instruction's bit pattern, two or four bytes wide.
#[derive(Debug, Clone, Copy, PartialEq, Eq)]
pub enum Token {
    Two(u16),
    Four(u32),
}

impl Token {
    /// The pattern's bytes, least significant first.
    pub open spec fn bytes_of(self) -> Seq<u8> {
        match self {
            Token::Two(x) => le_bytes_u16(x),
            Token::Four(x) => le_bytes_u32(x),
        }
    }

    /// The token that a fixture row's type and value describe; a two-byte
    /// value must fit in sixteen bits.
    pub open spec fn from_row(token_type: TokenType, value: u32) -> Option<Token> {
        match token_type {
            TokenType::Two => if value <= 0xffff {
                Some(Token::Two(value as u16))
            } else {
                None
            },
            TokenType::Four => Some(Token::Four(value)),
        }
    }

    /// Reads a token of the given width back from its bytes.
    pub open spec fn read(token_type: TokenType, s: Seq<u8>) -> Token {
        match token_type {
            TokenType::Two => Token::Two(read_u16(s, false)),
            TokenType::Four => Token::Four(read_u32(s, false)),
        }
    }

    pub open spec fn kind(self) -> TokenType {
        match self {
            Token::Two(_) => TokenType::Two,
            Token::Four(_) => TokenType::Four,
        }
    }

    pub fn to_tokens(&self) -> (r: Vec<u8>)
        ensures
            r@ == self.bytes_of(),
    {
        match *self {
            Token::Two(x) => copy_bytes(&u16_bytes(x, false)),
            Token::Four(x) => copy_bytes(&u32_bytes(x, false)),
        }
    }
}

/// Reading a token's bytes back, at the token's width, gives the token again.
pub proof fn lemma_tokens_round_trip(t: Token)
    ensures
        Token::read(t.kind(), t.bytes_of()) == t,
{
    match t {
        Token::Two(x) => lemma_u16_round_trip(x, false),
        Token::Four(x) => lemma_u32_round_trip(x, false),
    }
}

/// One fixture record: an instruction at an address, and the text a decoder
/// must give for it.
#[derive(Debug, Clone)]
pub struct Instruction {
    pub addr: u32,
    pub token: Token,
    pub result: String,
}

/// The width named in a fixture row.
#[derive(Debug, Clone, Copy, PartialEq, Eq)]
pub enum TokenType {
    Two,
    Four,
}

impl TokenType {
    /// Whether `value` fits a token of this width.
    pub fn fits(&self, value: u32) -> (r: bool)
        ensures
            r == (Token::from_row(*self, value) is Some),
    {
        match self {
            TokenType::Two => value <= 0xffff,
            TokenType::Four => true,
        }
    }
}

/// One row of a fixture file, field for field.
#[derive(Debug, Clone)]
pub struct InstructionSerialized {
    pub addr: u32,
    pub token_value: u32,
    pub token_type: TokenType,
    pub result: String,
}

impl Instruction {
    /// The record of a well-formed fixture row.
    pub fn from_serialized(value: InstructionSerialized) -> (r: Instruction)
        requires
            Token::from_row(value.token_type, value.token_value) is Some,
        ensures
            r.addr == value.addr,
            Token::from_row(value.token_type, value.token_value) == Some(r.token),
            r.result@ == value.result@,
    {
        let token = match value.token_type {
            TokenType::Two => Token::Two(value.token_value as u16),
            TokenType::Four => Token::Four(value.token_value),
        };
        Instruction { addr: value.addr, token, result: value.result }
    }
}

/// Runs one record against a decoder: its tokens must decode to the record's
/// text, with the next address as many bytes on as the tokens take.
pub fn test_instruction<P>(instruction: &Instruction, parse: &P) -> (r: Result<(), Failure>) where
    P: Fn(&[u8], u32) -> Option<(u32, String)>,

    requires
        forall|t: &[u8], a: u32| #[trigger] parse.requires((t, a)),
    ensures
        exists|t: &[u8], d: Option<(u32, String)>|
            {
                &&& t@ == instruction.token.bytes_of()
                &&& parse.ensures((t, instruction.addr), d)
                &&& judged(
                    t@,
                    instruction.addr as int,
                    t@.len() as int,
                    instruction.result@,
                    decoded_view_u32(d),
                    r,
                )
            },
{
    let token = instruction.token.to_tokens();
    let decoded = parse(token.as_slice(), instruction.addr);
    let width = token.len() as u64;
    check_decoded(token.as_slice(), instruction.addr as u64, width, &instruction.result, widen_u32(decoded))
}

} // verus!
