use vstd::prelude::*;

use crate::bytes::{
    be_bytes_u16, be_bytes_u32, copy_bytes, lemma_u16_round_trip, read_u16, u16_bytes, u32_bytes,
};
use crate::harness::{check_decoded, decoded_view_u16, judged, widen_u16, Failure};

verus! {

/// An instruction's bit pattern, one, two or three bytes wide.
#[derive(Debug, Clone, Copy, PartialEq, Eq)]
pub enum Token {
    One(u8),
    Two(u16),
    Three(u32),
}

impl Token {
    /// The pattern's bytes, most significant first; a three-byte pattern is
    /// the low three bytes of its value.
    pub open spec fn bytes_of(self) -> Seq<u8> {
        match self {
            Token::One(x) => seq![x],
            Token::Two(x) => be_bytes_u16(x),
            Token::Three(x) => be_bytes_u32(x).subrange(1, 4),
        }
    }

    /// The token that a fixture row's type and value describe; a one- or
    /// two-byte value must fit in eight or sixteen bits.
    pub open spec fn from_row(token_type: TokenType, value: u32) -> Option<Token> {
        match token_type {
            TokenType::One => if value <= 0xff {
                Some(Token::One(value as u8))
            } else {
                None
            },
            TokenType::Two => if value <= 0xffff {
                Some(Token::Two(value as u16))
            } else {
                None
            },
            TokenType::Three => Some(Token::Three(value)),
        }
    }

    /// Reads a token of the given width back from its bytes, most significant
    /// first.
    pub open spec fn read(token_type: TokenType, s: Seq<u8>) -> Token {
        match token_type {
            TokenType::One => Token::One(s[0]),
            TokenType::Two => Token::Two(read_u16(s, true)),
            TokenType::Three => Token::Three(
                ((s[0] as u32) << 16u32) | ((s[1] as u32) << 8u32) | (s[2] as u32),
            ),
        }
    }

    pub open spec fn kind(self) -> TokenType {
        match self {
            Token::One(_) => TokenType::One,
            Token::Two(_) => TokenType::Two,
            Token::Three(_) => TokenType::Three,
        }
    }

    pub fn to_tokens(&self) -> (r: Vec<u8>)
        ensures
            r@ == self.bytes_of(),
    {
        match *self {
            Token::One(x) => {
                let r = vec![x];
                assert(r@ =~= seq![x]);
                r
            },
            Token::Two(x) => copy_bytes(&u16_bytes(x, true)),
            Token::Three(x) => {
                let b = u32_bytes(x, true);
                let r = vec![b[1], b[2], b[3]];
                assert(r@ =~= self.bytes_of());
                r
            },
        }
    }
}

/// Reading a token's bytes back, at the token's width, gives the token again,
/// provided a three-byte token's value fits in three bytes.
pub proof fn lemma_tokens_round_trip(t: Token)
    requires
        t matches Token::Three(x) ==> x < 0x100_0000,
    ensures
        Token::read(t.kind(), t.bytes_of()) == t,
{
    match t {
        Token::One(_) => {},
        Token::Two(x) => lemma_u16_round_trip(x, true),
        Token::Three(x) => {
            assert(x < 0x100_0000u32 ==> ((((x >> 16u32) as u8) as u32) << 16u32) | ((((x
                >> 8u32) as u8) as u32) << 8u32) | ((x as u8) as u32) == x) by (bit_vector);
        },
    }
}

/// One fixture record: an instruction at an address, and the text a decoder
/// must give for it.
#[derive(Debug, Clone)]
pub struct Instruction {
    pub addr: u16,
    pub token: Token,
    pub result: String,
}

/// The width named in a fixture row.
#[derive(Debug, Clone, Copy, PartialEq, Eq)]
pub enum TokenType {
    One,
    Two,
    Three,
}

impl TokenType {
    /// Whether `value` fits a token of this width.
    pub fn fits(&self, value: u32) -> (r: bool)
        ensures
            r == (Token::from_row(*self, value) is Some),
    {
        match self {
            TokenType::One => value <= 0xff,
            TokenType::Two => value <= 0xffff,
            TokenType::Three => true,
        }
    }
}

/// One row of a fixture file, field for field.
#[derive(Debug, Clone)]
pub struct InstructionSerialized {
    pub addr: u16,
    pub token_value: u32,
    pub token_type: TokenType,
    pub result: String,
}

impl Instruction {
    /// The record of a well-formed fixture row.
    pub fn from_serialized(value: InstructionSerialized) -> (r: Instruction)
        requires
            Token::from_row(value.token_type, value.token_value) is Some,
        ensures
            r.addr == value.addr,
            Token::from_row(value.token_type, value.token_value) == Some(r.token),
            r.result@ == value.result@,
    {
        let token = match value.token_type {
            TokenType::One => Token::One(value.token_value as u8),
            TokenType::Two => Token::Two(value.token_value as u16),
            TokenType::Three => Token::Three(value.token_value),
        };
        Instruction { addr: value.addr, token, result: value.result }
    }
}

/// Runs one record against a decoder: its tokens must decode to the record's
/// text, with the next address as many bytes on as the tokens take.
pub fn test_instruction<P>(instruction: &Instruction, parse: &P) -> (r: Result<(), Failure>) where
    P: Fn(&[u8], u16) -> Option<(u16, String)>,

    requires
        forall|t: &[u8], a: u16| #[trigger] parse.requires((t, a)),
    ensures
        exists|t: &[u8], d: Option<(u16, String)>|
            {
                &&& t@ == instruction.token.bytes_of()
                &&& parse.ensures((t, instruction.addr), d)
                &&& judged(
                    t@,
                    instruction.addr as int,
                    t@.len() as int,
                    instruction.result@,
                    decoded_view_u16(d),
                    r,
                )
            },
{
    let token = instruction.token.to_tokens();
    let decoded = parse(token.as_slice(), instruction.addr);
    let width = token.len() as u64;
    check_decoded(token.as_slice(), instruction.addr as u64, width, &instruction.result, widen_u16(decoded))
}

} // verus!
