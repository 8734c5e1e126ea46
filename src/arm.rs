use vstd::prelude::*;

use crate::bytes::{
    bytes_u16, bytes_u32, copy_bytes, lemma_u16_round_trip, lemma_u32_round_trip, read_u16,
    read_u32, u16_bytes, u32_bytes,
};
use crate::harness::{check_decoded, decoded_view_u32, settled, widen_u32, Failure, Outcome};

verus! {

/// The architecture versions, oldest first.
#[derive(Debug, Clone, Copy, PartialEq, Eq, PartialOrd, Ord, Hash, Structural)]
pub enum Version {
    V4,
    V5,
    V6,
    V7,
    V8,
}

impl Version {
    /// The version's number, which also gives the order of the versions.
    pub open spec fn rank(self) -> u8 {
        match self {
            Version::V4 => 4,
            Version::V5 => 5,
            Version::V6 => 6,
            Version::V7 => 7,
            Version::V8 => 8,
        }
    }

    pub fn number(&self) -> (r: u8)
        ensures
            r == self.rank(),
    {
        match self {
            Version::V4 => 4,
            Version::V5 => 5,
            Version::V6 => 6,
            Version::V7 => 7,
            Version::V8 => 8,
        }
    }
}

/// An inclusive range of versions.
#[derive(Debug, Clone, Copy, PartialEq, Eq, Structural)]
pub struct VersionRange {
    pub start: Version,
    pub end: Version,
}

impl VersionRange {
    /// `v` lies between the two ends, both included.
    pub open spec fn includes(self, v: Version) -> bool {
        self.start.rank() <= v.rank() && v.rank() <= self.end.rank()
    }

    pub fn new(start: Version, end: Version) -> (r: VersionRange)
        ensures
            r.start == start,
            r.end == end,
    {
        VersionRange { start, end }
    }

    pub fn contains(&self, v: &Version) -> (r: bool)
        ensures
            r == self.includes(*v),
    {
        self.start.number() <= v.number() && v.number() <= self.end.number()
    }
}

/// Every version between the two ends of a range is in it, the ends included,
/// and no other version is.
pub proof fn lemma_range_containment(start: Version, end: Version, v: Version)
    ensures
        (VersionRange { start, end }).includes(v) <==> (start.rank() <= v.rank() && v.rank()
            <= end.rank()),
        start.rank() <= end.rank() ==> (VersionRange { start, end }).includes(start),
        start.rank() <= end.rank() ==> (VersionRange { start, end }).includes(end),
{
}

/// An instruction's bit pattern, in one of the three encodings.
#[derive(Debug, Clone, Copy, PartialEq, Eq, Structural)]
pub enum Instruction {
    Arm(u32),
    Thumb32(u16, u16),
    Thumb16(u16),
}

/// The encoding named in a fixture row.
#[derive(Debug, Clone, Copy, PartialEq, Eq, Structural)]
pub enum InstructionType {
    Arm,
    Thumb32,
    Thumb16,
}

impl InstructionType {
    /// Whether `value` fits an instruction of this type: a Thumb16 value must
    /// fit in sixteen bits.
    pub fn fits(&self, value: u32) -> (r: bool)
        ensures
            r == (Instruction::from_row(*self, value) is Some),
    {
        match self {
            InstructionType::Thumb16 => value <= 0xffff,
            _ => true,
        }
    }
}

/// The 32-bit word that the two halves of a Thumb32 instruction form: the
/// first half on top for big endian, the second half on top for little endian.
pub open spec fn thumb32_word(x: u16, y: u16, big_endian: bool) -> u32 {
    if big_endian {
        ((x as u32) << 16u32) | (y as u32)
    } else {
        ((y as u32) << 16u32) | (x as u32)
    }
}

impl Instruction {
    /// The bytes that stand for the instruction in the given byte order.
    pub open spec fn tokens_of(self, big_endian: bool) -> Seq<u8> {
        match self {
            Instruction::Arm(x) => bytes_u32(x, big_endian),
            Instruction::Thumb32(x, y) => bytes_u32(thumb32_word(x, y, big_endian), big_endian),
            Instruction::Thumb16(x) => bytes_u16(x, big_endian),
        }
    }

    /// The number of bytes that the encoding takes.
    pub open spec fn width(self) -> nat {
        match self {
            Instruction::Thumb16(_) => 2,
            _ => 4,
        }
    }

    pub open spec fn is_thumb(self) -> bool {
        !(self is Arm)
    }

    pub open spec fn kind(self) -> InstructionType {
        match self {
            Instruction::Arm(_) => InstructionType::Arm,
            Instruction::Thumb32(..) => InstructionType::Thumb32,
            Instruction::Thumb16(_) => InstructionType::Thumb16,
        }
    }

    /// The instruction that a fixture row's type and value describe; a Thumb16
    /// value must fit in sixteen bits.
    pub open spec fn from_row(inst_type: InstructionType, value: u32) -> Option<Instruction> {
        match inst_type {
            InstructionType::Arm => Some(Instruction::Arm(value)),
            InstructionType::Thumb32 => Some(
                Instruction::Thumb32((value >> 16u32) as u16, (value & 0xffffu32) as u16),
            ),
            InstructionType::Thumb16 => if value <= 0xffff {
                Some(Instruction::Thumb16(value as u16))
            } else {
                None
            },
        }
    }

    /// Reads an instruction of the given type back from its bytes.
    pub open spec fn read(inst_type: InstructionType, s: Seq<u8>, big_endian: bool) -> Instruction {
        match inst_type {
            InstructionType::Arm => Instruction::Arm(read_u32(s, big_endian)),
            InstructionType::Thumb32 => {
                let w = read_u32(s, big_endian);
                if big_endian {
                    Instruction::Thumb32((w >> 16u32) as u16, w as u16)
                } else {
                    Instruction::Thumb32(w as u16, (w >> 16u32) as u16)
                }
            },
            InstructionType::Thumb16 => Instruction::Thumb16(read_u16(s, big_endian)),
        }
    }

    pub fn new(inst_type: InstructionType, value: u32) -> (r: Instruction)
        requires
            inst_type == InstructionType::Thumb16 ==> value <= 0xffff,
        ensures
            Instruction::from_row(inst_type, value) == Some(r),
    {
        match inst_type {
            InstructionType::Arm => Instruction::Arm(value),
            InstructionType::Thumb32 => Instruction::Thumb32(
                (value >> 16u32) as u16,
                (value & 0xffffu32) as u16,
            ),
            InstructionType::Thumb16 => Instruction::Thumb16(value as u16),
        }
    }

    pub fn to_tokens(&self, big_endian: bool) -> (r: Vec<u8>)
        ensures
            r@ == self.tokens_of(big_endian),
            r@.len() == self.width(),
    {
        match *self {
            Instruction::Arm(x) => copy_bytes(&u32_bytes(x, big_endian)),
            Instruction::Thumb32(x, y) => {
                let w = if big_endian {
                    (x as u32) << 16u32 | y as u32
                } else {
                    (y as u32) << 16u32 | x as u32
                };
                copy_bytes(&u32_bytes(w, big_endian))
            },
            Instruction::Thumb16(x) => copy_bytes(&u16_bytes(x, big_endian)),
        }
    }

    pub fn thumb_mode(&self) -> (r: bool)
        ensures
            r == self.is_thumb(),
    {
        match self {
            Instruction::Arm(_) => false,
            Instruction::Thumb32(..) | Instruction::Thumb16(_) => true,
        }
    }
}

/// Encoding is a function of the instruction and the byte order alone: two
/// encodings of one instruction in one byte order give the same bytes.
pub proof fn lemma_encoding_deterministic(
    i: Instruction,
    big_endian: bool,
    first: Seq<u8>,
    second: Seq<u8>,
)
    requires
        first == i.tokens_of(big_endian),
        second == i.tokens_of(big_endian),
    ensures
        first == second,
        first.len() == i.width(),
{
    lemma_tokens_round_trip(i, big_endian);
}

/// Reading the bytes of an instruction back, as the type and byte order that
/// wrote them, gives the instruction again.
pub proof fn lemma_tokens_round_trip(i: Instruction, big_endian: bool)
    ensures
        Instruction::read(i.kind(), i.tokens_of(big_endian), big_endian) == i,
        i.tokens_of(big_endian).len() == i.width(),
{
    match i {
        Instruction::Arm(x) => lemma_u32_round_trip(x, big_endian),
        Instruction::Thumb32(x, y) => {
            let w = thumb32_word(x, y, big_endian);
            lemma_u32_round_trip(w, big_endian);
            assert((((x as u32) << 16u32) | (y as u32)) >> 16u32 == x as u32) by (bit_vector);
            assert(((((x as u32) << 16u32) | (y as u32)) as u16) == y) by (bit_vector);
            assert((((y as u32) << 16u32) | (x as u32)) >> 16u32 == y as u32) by (bit_vector);
            assert(((((y as u32) << 16u32) | (x as u32)) as u16) == x) by (bit_vector);
        },
        Instruction::Thumb16(x) => lemma_u16_round_trip(x, big_endian),
    }
}

/// One row of a fixture file, field for field.
#[derive(Debug, Clone, PartialEq, Eq)]
pub struct TestSerialized {
    pub min_version: Version,
    pub max_version: Version,
    pub addr: u32,
    pub instruction_type: InstructionType,
    pub instruction_value: u32,
    pub result: String,
}

/// One fixture record: the versions it applies to, where the instruction
/// lies, the instruction, and the text a decoder must give for it.
#[derive(Debug, Clone, PartialEq, Eq)]
pub struct Test {
    pub versions: VersionRange,
    pub addr: u32,
    pub instruction: Instruction,
    pub result: String,
}

impl Test {
    /// The record of a well-formed fixture row.
    pub fn from_serialized(value: TestSerialized) -> (r: Test)
        requires
            Instruction::from_row(value.instruction_type, value.instruction_value) is Some,
        ensures
            r.versions == (VersionRange { start: value.min_version, end: value.max_version }),
            r.addr == value.addr,
            Instruction::from_row(value.instruction_type, value.instruction_value) == Some(
                r.instruction,
            ),
            r.result@ == value.result@,
    {
        Test {
            versions: VersionRange::new(value.min_version, value.max_version),
            addr: value.addr,
            instruction: Instruction::new(value.instruction_type, value.instruction_value),
            result: value.result,
        }
    }
}

/// A decoder under test: the primary (ARM) decoding function alone, or with a
/// secondary (Thumb) one. Each takes the tokens and their address, and gives
/// the address after the instruction and its text, or `None`.
pub enum Decoder<P, S> {
    SingleMode(P),
    DualMode(P, S),
}

impl<P, S> Decoder<P, S> where
    P: Fn(&[u8], u32) -> Option<(u32, String)>,
    S: Fn(&[u8], u32) -> Option<(u32, String)>,
 {
    /// Each decoding function that is present accepts every input.
    pub open spec fn total(&self) -> bool {
        match self {
            Decoder::SingleMode(p) => forall|t: &[u8], a: u32| #[trigger] p.requires((t, a)),
            Decoder::DualMode(p, s) => {
                &&& forall|t: &[u8], a: u32| #[trigger] p.requires((t, a))
                &&& forall|t: &[u8], a: u32| #[trigger] s.requires((t, a))
            },
        }
    }

    /// Whether `d` is a possible answer of the decoding function for the
    /// given mode on these tokens and address.
    pub open spec fn answers(&self, thumb: bool, t: &[u8], a: u32, d: Option<(u32, String)>) -> bool {
        match self {
            Decoder::SingleMode(p) => !thumb && p.ensures((t, a), d),
            Decoder::DualMode(p, s) => if thumb {
                s.ensures((t, a), d)
            } else {
                p.ensures((t, a), d)
            },
        }
    }

    pub fn have_thumb(&self) -> (r: bool)
        ensures
            r == (self is DualMode),
    {
        match self {
            Decoder::SingleMode(_) => false,
            Decoder::DualMode(..) => true,
        }
    }

    pub fn arm(&self, token: &[u8], addr: u32) -> (r: Option<(u32, String)>)
        requires
            self.total(),
        ensures
            self.answers(false, token, addr, r),
    {
        match self {
            Decoder::SingleMode(p) => p(token, addr),
            Decoder::DualMode(p, _) => p(token, addr),
        }
    }

    pub fn thumb(&self, token: &[u8], addr: u32) -> (r: Option<(u32, String)>)
        requires
            self.total(),
            self is DualMode,
        ensures
            self.answers(true, token, addr, r),
    {
        match self {
            Decoder::DualMode(_, s) => s(token, addr),
            Decoder::SingleMode(_) => None,
        }
    }
}

/// Runs one record against a decoder at a version and byte order. A record
/// whose range excludes the version, or that needs Thumb decoding from a
/// decoder without it, is skipped; otherwise its tokens go to the decoder for
/// its mode, and the answer must give the record's text and advance the
/// address by the number of tokens.
pub fn test_instruction<P, S>(
    test: &Test,
    version: Version,
    big_endian: bool,
    parse: &Decoder<P, S>,
) -> (r: Result<Outcome, Failure>) where
    P: Fn(&[u8], u32) -> Option<(u32, String)>,
    S: Fn(&[u8], u32) -> Option<(u32, String)>,

    requires
        parse.total(),
    ensures
        !test.versions.includes(version) ==> r == Ok::<Outcome, Failure>(Outcome::FilteredOut),
        test.versions.includes(version) && test.instruction.is_thumb() && parse is SingleMode
            ==> r == Ok::<Outcome, Failure>(Outcome::ModeUnsupported),
        test.versions.includes(version) && (!test.instruction.is_thumb() || parse is DualMode)
            ==> exists|t: &[u8], d: Option<(u32, String)>|
            {
                &&& t@ == test.instruction.tokens_of(big_endian)
                &&& parse.answers(test.instruction.is_thumb(), t, test.addr, d)
                &&& settled(
                    t@,
                    test.addr as int,
                    test.instruction.width() as int,
                    test.result@,
                    decoded_view_u32(d),
                    r,
                )
            },
{
    if !test.versions.contains(&version) {
        return Ok(Outcome::FilteredOut);
    }
    let token = test.instruction.to_tokens(big_endian);
    let thumb = test.instruction.thumb_mode();
    if thumb && !parse.have_thumb() {
        return Ok(Outcome::ModeUnsupported);
    }
    let decoded = if thumb {
        parse.thumb(token.as_slice(), test.addr)
    } else {
        parse.arm(token.as_slice(), test.addr)
    };
    let width = token.len() as u64;
    match check_decoded(token.as_slice(), test.addr as u64, width, &test.result, widen_u32(decoded)) {
        Ok(()) => Ok(Outcome::Verified),
        Err(f) => Err(f),
    }
}

/// A record passes only on a decoded answer whose next address lies exactly
/// as many bytes past the record's address as its encoding takes: four for
/// Arm and Thumb32, two for Thumb16.
pub proof fn lemma_pass_advances_by_width(
    i: Instruction,
    big_endian: bool,
    addr: u32,
    expected: Seq<char>,
    decoded: Option<(int, Seq<char>)>,
)
    requires
        settled(
            i.tokens_of(big_endian),
            addr as int,
            i.width() as int,
            expected,
            decoded,
            Ok::<Outcome, Failure>(Outcome::Verified),
        ),
    ensures
        (decoded matches Some((next, _)) && next - addr == i.tokens_of(big_endian).len()),
        (decoded matches Some((next, _)) && next - addr == (if i is Thumb16 {
            2int
        } else {
            4int
        })),
{
    lemma_tokens_round_trip(i, big_endian);
}

} // verus!
