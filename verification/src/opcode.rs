//! The instruction model of the 8080: the `Op` sum type naming every
//! executable instruction, and the table-free bidirectional codec between
//! raw byte sequences (one to three bytes) and `Op` values.

use vstd::prelude::*;
use crate::access::Byte;
use crate::access::Double;
use crate::access::Internal;
use crate::access::Word;
use crate::state::Register;
use crate::state::State;

verus! {

/// Whether a state satisfies a branch condition.
pub open spec fn spec_approves(s: State, t: Test) -> bool {
    match t {
        Test::Not(Flag::Zero) => !s.z,
        Test::Is(Flag::Zero) => s.z,
        Test::Not(Flag::Carry) => !s.c,
        Test::Is(Flag::Carry) => s.c,
        Test::Not(Flag::EvenParity) => !s.p,
        Test::Is(Flag::EvenParity) => s.p,
        Test::Not(Flag::Negative) => !s.m,
        Test::Is(Flag::Negative) => s.m,
    }
}

/// A condition flag an instruction can test.
#[derive(Debug, Clone, Copy, PartialEq, Eq, Structural)]
pub enum Flag {
    Zero,
    Carry,
    EvenParity,
    Negative,
}

/// A branch condition: a flag required to be clear (`Not`) or set (`Is`).
#[derive(Debug, Clone, Copy, PartialEq, Eq, Structural)]
pub enum Test {
    Not(Flag),
    Is(Flag),
}

/// A single action of the processor: one variant per instruction of the
/// 8080, at design level rather than bit level.
#[derive(Debug, Clone, Copy, PartialEq, Eq, Structural)]
#[allow(inconsistent_fields)]
pub enum Op {
    NOP(u8),
    Add { from: Byte, carry: bool },
    AddTo { value: u8, carry: bool },
    And { from: Byte },
    AndWith { value: u8 },
    Call { sub: u16 },
    CallIf(Test, u16),
    CarryFlag(bool),
    Compare { from: Byte },
    CompareWith { value: u8 },
    ComplementAccumulator,
    DecimalAddAdjust,
    DecrementByte { register: Byte },
    DecrementWord { register: Internal },
    Interrupts(bool),
    DoubleAdd { register: Internal },
    ExchangeDoubleWithHilo,
    ExchangeTopWithHilo,
    ExclusiveOr { from: Byte },
    ExclusiveOrWith { value: u8 },
    Halt,
    In(u8),
    IncrementByte { register: Byte },
    IncrementWord { register: Internal },
    Jump { to: u16 },
    JumpIf(Test, u16),
    LoadAccumulator { address: u16 },
    LoadAccumulatorIndirect { register: Double },
    LoadExtendedWith { to: Internal, value: u16 },
    LoadHilo { address: u16 },
    Move { to: Byte, from: Byte },
    MoveData { value: u8, to: Byte },
    Or { from: Byte },
    OrWith { value: u8 },
    Out(u8),
    Pop(Word),
    ProgramCounterFromHilo,
    Push(Word),
    Reset { vector: u8 },
    Return,
    ReturnIf(Test),
    RotateLeftCarrying,
    RotateRightCarrying,
    RotateAccumulatorLeft,
    RotateAccumulatorRight,
    StackPointerFromHilo,
    StoreAccumulator { address: u16 },
    StoreAccumulatorIndirect { register: Double },
    StoreHilo { address: u16 },
    Subtract { from: Byte, carry: bool },
    SubtractBy { value: u8, carry: bool },
}

/// A reset vector outside `0..=7` was requested.
#[derive(Debug, Clone, Copy, PartialEq, Eq, Structural)]
pub struct OutOfRange;

/// Everything that can go wrong while turning bytes into an `Op` or while
/// injecting one.
#[derive(Debug, Clone, Copy, PartialEq, Eq, Structural)]
pub enum Error {
    /// The byte is one of the primary opcodes the 8080 leaves undefined.
    Unknown(u8),
    /// A multi-byte operation was submitted where one byte is required.
    NotUsable(Op),
    /// An operation did not reproduce the byte it was matched against.
    Mismatch(Op, u8),
    /// The byte sequence ended after this byte, which opens a longer form.
    Invalid(u8),
    /// The byte sequence ended after these two bytes, which open a
    /// three-byte form.
    InvalidPair(u8, u8),
    /// Three bytes that no instruction shape matches.
    InvalidTriple(u8, u8, u8),
    /// The byte sequence was empty.
    NoData,
}

impl Test {
    /// Whether the given state satisfies this branch condition.
    pub fn approves(self, env: &State) -> (r: bool)
        ensures
            r == spec_approves(*env, self),
    {
        match self {
            Test::Not(Flag::Zero) => !env.z,
            Test::Is(Flag::Zero) => env.z,
            Test::Not(Flag::Carry) => !env.c,
            Test::Is(Flag::Carry) => env.c,
            Test::Not(Flag::EvenParity) => !env.p,
            Test::Is(Flag::EvenParity) => env.p,
            Test::Not(Flag::Negative) => !env.m,
            Test::Is(Flag::Negative) => env.m,
        }
    }
}

/// The 8080 encoding of a byte register: `B`=0, `C`=1, `D`=2, `E`=3, `H`=4,
/// `L`=5, `A`=7 (6 names the byte addressed through `HL`).
pub open spec fn spec_register_code(r: Register) -> u8 {
    match r {
        Register::B => 0u8,
        Register::C => 1u8,
        Register::D => 2u8,
        Register::E => 3u8,
        Register::H => 4u8,
        Register::L => 5u8,
        Register::A => 7u8,
    }
}

/// The three-bit field for a byte location; `RAM` has no encoding and is
/// given a sentinel outside the field range.
pub open spec fn spec_byte_code(b: Byte) -> u8 {
    match b {
        Byte::Single(r) => spec_register_code(r),
        Byte::Indirect => 6u8,
        Byte::RAM(_) => 8u8,
    }
}

/// The byte location named by a three-bit field.
pub open spec fn spec_byte_from_code(c: u8) -> Byte {
    if c == 0 {
        Byte::Single(Register::B)
    } else if c == 1 {
        Byte::Single(Register::C)
    } else if c == 2 {
        Byte::Single(Register::D)
    } else if c == 3 {
        Byte::Single(Register::E)
    } else if c == 4 {
        Byte::Single(Register::H)
    } else if c == 5 {
        Byte::Single(Register::L)
    } else if c == 6 {
        Byte::Indirect
    } else {
        Byte::Single(Register::A)
    }
}

/// The two-bit field for a condition flag.
pub open spec fn spec_flag_code(f: Flag) -> u8 {
    match f {
        Flag::Zero => 0u8,
        Flag::Carry => 1u8,
        Flag::EvenParity => 2u8,
        Flag::Negative => 3u8,
    }
}

/// The three-bit field for a branch condition: flag in the upper two bits,
/// sense in the lowest.
pub open spec fn spec_test_code(t: Test) -> u8 {
    match t {
        Test::Not(f) => (2 * spec_flag_code(f)) as u8,
        Test::Is(f) => (2 * spec_flag_code(f) + 1) as u8,
    }
}

/// The branch condition named by a three-bit field.
pub open spec fn spec_test_from_code(c: u8) -> Test {
    let flag = if c / 2 % 4 == 0 {
        Flag::Zero
    } else if c / 2 % 4 == 1 {
        Flag::Carry
    } else if c / 2 % 4 == 2 {
        Flag::EvenParity
    } else {
        Flag::Negative
    };
    if c % 2 == 0 {
        Test::Not(flag)
    } else {
        Test::Is(flag)
    }
}

/// The two-bit register-pair field: `BC`=0, `DE`=1, `HL`=2, `SP`=3; the
/// program counter has no encoding and is given a sentinel.
pub open spec fn spec_internal_code(i: Internal) -> u8 {
    match i {
        Internal::Wide(Double::BC) => 0u8,
        Internal::Wide(Double::DE) => 1u8,
        Internal::Wide(Double::HL) => 2u8,
        Internal::StackPointer => 3u8,
        Internal::ProgramCounter => 4u8,
    }
}

/// The 16-bit register named by a two-bit register-pair field.
pub open spec fn spec_internal_from_code(c: u8) -> Internal {
    if c == 0 {
        Internal::Wide(Double::BC)
    } else if c == 1 {
        Internal::Wide(Double::DE)
    } else if c == 2 {
        Internal::Wide(Double::HL)
    } else {
        Internal::StackPointer
    }
}

/// The two-bit field for a push/pop target: a pair keeps its code and the
/// program status word takes the slot the stack pointer uses elsewhere.
pub open spec fn spec_word_code(w: Word) -> u8 {
    match w {
        Word::OnBoard(Internal::Wide(d)) => spec_internal_code(Internal::Wide(d)),
        Word::ProgramStatus => 3u8,
        Word::OnBoard(Internal::StackPointer) => 3u8,
        _ => 4u8,
    }
}

/// The push/pop target named by a two-bit field.
pub open spec fn spec_word_from_code(c: u8) -> Word {
    if c == 3 {
        Word::ProgramStatus
    } else {
        Word::OnBoard(spec_internal_from_code(c))
    }
}

/// The one-byte decode table: the exact matches first, then the fixed-bit
/// shape groups in their peel order.
#[verifier::opaque]
pub open spec fn spec_decode1(b: u8) -> Option<Op> {
    if b == 0x00 {
        Some(Op::NOP(4))
    } else if b == 0xEB {
        Some(Op::ExchangeDoubleWithHilo)
    } else if b == 0x76 {
        Some(Op::Halt)
    } else if b == 0xC9 {
        Some(Op::Return)
    } else if b == 0xE3 {
        Some(Op::ExchangeTopWithHilo)
    } else if b == 0x07 {
        Some(Op::RotateLeftCarrying)
    } else if b == 0x0F {
        Some(Op::RotateRightCarrying)
    } else if b == 0x17 {
        Some(Op::RotateAccumulatorLeft)
    } else if b == 0x1F {
        Some(Op::RotateAccumulatorRight)
    } else if b == 0x37 {
        Some(Op::CarryFlag(true))
    } else if b == 0x3F {
        Some(Op::CarryFlag(false))
    } else if b == 0x27 {
        Some(Op::DecimalAddAdjust)
    } else if b == 0x2F {
        Some(Op::ComplementAccumulator)
    } else if b == 0xE9 {
        Some(Op::ProgramCounterFromHilo)
    } else if b == 0xF9 {
        Some(Op::StackPointerFromHilo)
    } else if b == 0xF3 {
        Some(Op::Interrupts(false))
    } else if b == 0xFB {
        Some(Op::Interrupts(true))
    } else if b / 64 == 3 && b % 8 == 7 {
        Some(Op::Reset { vector: b / 8 % 8 })
    } else if b / 64 == 3 && b % 8 == 0 {
        Some(Op::ReturnIf(spec_test_from_code(b / 8 % 8)))
    } else if b / 64 == 0 && b % 8 == 4 {
        Some(Op::IncrementByte { register: spec_byte_from_code(b / 8 % 8) })
    } else if b / 64 == 0 && b % 8 == 5 {
        Some(Op::DecrementByte { register: spec_byte_from_code(b / 8 % 8) })
    } else if b / 64 == 0 && b % 16 == 11 {
        Some(Op::DecrementWord { register: spec_internal_from_code(b / 16 % 4) })
    } else if b / 64 == 0 && b % 16 == 3 {
        Some(Op::IncrementWord { register: spec_internal_from_code(b / 16 % 4) })
    } else if b / 64 == 0 && b % 16 == 9 {
        Some(Op::DoubleAdd { register: spec_internal_from_code(b / 16 % 4) })
    } else if b / 64 == 3 && b % 16 == 5 {
        Some(Op::Push(spec_word_from_code(b / 16 % 4)))
    } else if b / 64 == 3 && b % 16 == 1 {
        Some(Op::Pop(spec_word_from_code(b / 16 % 4)))
    } else if b / 8 == 16 {
        Some(Op::Add { from: spec_byte_from_code(b % 8), carry: false })
    } else if b / 8 == 17 {
        Some(Op::Add { from: spec_byte_from_code(b % 8), carry: true })
    } else if b / 8 == 18 {
        Some(Op::Subtract { from: spec_byte_from_code(b % 8), carry: false })
    } else if b / 8 == 19 {
        Some(Op::Subtract { from: spec_byte_from_code(b % 8), carry: true })
    } else if b / 8 == 20 {
        Some(Op::And { from: spec_byte_from_code(b % 8) })
    } else if b / 8 == 21 {
        Some(Op::ExclusiveOr { from: spec_byte_from_code(b % 8) })
    } else if b / 8 == 22 {
        Some(Op::Or { from: spec_byte_from_code(b % 8) })
    } else if b / 8 == 23 {
        Some(Op::Compare { from: spec_byte_from_code(b % 8) })
    } else if b / 64 == 1 {
        Some(Op::Move { to: spec_byte_from_code(b / 8 % 8), from: spec_byte_from_code(b % 8) })
    } else if b / 32 == 0 && b % 16 == 10 {
        Some(
            Op::LoadAccumulatorIndirect {
                register: if b / 16 % 2 == 1 {
                    Double::DE
                } else {
                    Double::BC
                },
            },
        )
    } else if b / 32 == 0 && b % 16 == 2 {
        Some(
            Op::StoreAccumulatorIndirect {
                register: if b / 16 % 2 == 1 {
                    Double::DE
                } else {
                    Double::BC
                },
            },
        )
    } else {
        None
    }
}

/// The primary opcodes the 8080 leaves truly unused: the Z80 prefix slots
/// and the alternate no-op slots.  Only consulted after the one-byte decode
/// has failed.
pub open spec fn spec_unknown(b: u8) -> bool {
    ||| b == 0xCB
    ||| b == 0xD9
    ||| b == 0xDD
    ||| b == 0xED
    ||| b == 0xFD
    ||| (b / 64 == 0 && b % 8 == 0)
}

/// The two-byte decode table: the immediate ALU forms, port I/O and MVI.
#[verifier::opaque]
pub open spec fn spec_decode2(b0: u8, b1: u8) -> Option<Op> {
    if b0 == 0xC6 {
        Some(Op::AddTo { value: b1, carry: false })
    } else if b0 == 0xCE {
        Some(Op::AddTo { value: b1, carry: true })
    } else if b0 == 0xD6 {
        Some(Op::SubtractBy { value: b1, carry: false })
    } else if b0 == 0xDE {
        Some(Op::SubtractBy { value: b1, carry: true })
    } else if b0 == 0xE6 {
        Some(Op::AndWith { value: b1 })
    } else if b0 == 0xEE {
        Some(Op::ExclusiveOrWith { value: b1 })
    } else if b0 == 0xF6 {
        Some(Op::OrWith { value: b1 })
    } else if b0 == 0xFE {
        Some(Op::CompareWith { value: b1 })
    } else if b0 == 0xD3 {
        Some(Op::Out(b1))
    } else if b0 == 0xDB {
        Some(Op::In(b1))
    } else if b0 / 64 == 0 && b0 % 8 == 6 {
        Some(Op::MoveData { value: b1, to: spec_byte_from_code(b0 / 8 % 8) })
    } else {
        None
    }
}

/// The three-byte decode table: the direct loads and stores, jumps, calls
/// and LXI, with the operand word assembled little-endian.
#[verifier::opaque]
pub open spec fn spec_decode3(b0: u8, b1: u8, b2: u8) -> Option<Op> {
    let data = (b1 + 256 * b2) as u16;
    if b0 == 0x2A {
        Some(Op::LoadHilo { address: data })
    } else if b0 == 0x22 {
        Some(Op::StoreHilo { address: data })
    } else if b0 == 0x3A {
        Some(Op::LoadAccumulator { address: data })
    } else if b0 == 0x32 {
        Some(Op::StoreAccumulator { address: data })
    } else if b0 == 0xC3 {
        Some(Op::Jump { to: data })
    } else if b0 == 0xCD {
        Some(Op::Call { sub: data })
    } else if b0 / 64 == 0 && b0 % 16 == 1 {
        Some(Op::LoadExtendedWith { to: spec_internal_from_code(b0 / 16 % 4), value: data })
    } else if b0 / 64 == 3 && b0 % 8 == 2 {
        Some(Op::JumpIf(spec_test_from_code(b0 / 8 % 8), data))
    } else if b0 / 64 == 3 && b0 % 8 == 4 {
        Some(Op::CallIf(spec_test_from_code(b0 / 8 % 8), data))
    } else {
        None
    }
}

/// What `Op::extract` returns on a byte sequence: the shortest decodable
/// prefix with its length, or the taxonomic error.  The decoder never looks
/// past the instruction it returns.
pub open spec fn spec_extract(s: Seq<u8>) -> Result<(Op, int), Error> {
    if s.len() == 0 {
        Err(Error::NoData)
    } else if spec_decode1(s[0]) is Some {
        Ok((spec_decode1(s[0])->Some_0, 1))
    } else if spec_unknown(s[0]) {
        Err(Error::Unknown(s[0]))
    } else if s.len() < 2 {
        Err(Error::Invalid(s[0]))
    } else if spec_decode2(s[0], s[1]) is Some {
        Ok((spec_decode2(s[0], s[1])->Some_0, 2))
    } else if s.len() < 3 {
        Err(Error::InvalidPair(s[0], s[1]))
    } else if spec_decode3(s[0], s[1], s[2]) is Some {
        Ok((spec_decode3(s[0], s[1], s[2])->Some_0, 3))
    } else {
        Err(Error::InvalidTriple(s[0], s[1], s[2]))
    }
}

/// The byte location named by a three-bit field.
pub(crate) fn byte_from_code(c: u8) -> (r: Byte)
    requires
        c < 8,
    ensures
        r == spec_byte_from_code(c),
{
    if c == 0 {
        Byte::Single(Register::B)
    } else if c == 1 {
        Byte::Single(Register::C)
    } else if c == 2 {
        Byte::Single(Register::D)
    } else if c == 3 {
        Byte::Single(Register::E)
    } else if c == 4 {
        Byte::Single(Register::H)
    } else if c == 5 {
        Byte::Single(Register::L)
    } else if c == 6 {
        Byte::Indirect
    } else {
        Byte::Single(Register::A)
    }
}

/// The branch condition named by a three-bit field.
pub(crate) fn test_from_code(c: u8) -> (r: Test)
    requires
        c < 8,
    ensures
        r == spec_test_from_code(c),
{
    let flag = if c / 2 % 4 == 0 {
        Flag::Zero
    } else if c / 2 % 4 == 1 {
        Flag::Carry
    } else if c / 2 % 4 == 2 {
        Flag::EvenParity
    } else {
        Flag::Negative
    };
    if c % 2 == 0 {
        Test::Not(flag)
    } else {
        Test::Is(flag)
    }
}

/// The 16-bit register named by a two-bit register-pair field.
pub(crate) fn internal_from_code(c: u8) -> (r: Internal)
    requires
        c < 4,
    ensures
        r == spec_internal_from_code(c),
{
    if c == 0 {
        Internal::Wide(Double::BC)
    } else if c == 1 {
        Internal::Wide(Double::DE)
    } else if c == 2 {
        Internal::Wide(Double::HL)
    } else {
        Internal::StackPointer
    }
}

/// The push/pop target named by a two-bit field.
pub(crate) fn word_from_code(c: u8) -> (r: Word)
    requires
        c < 4,
    ensures
        r == spec_word_from_code(c),
{
    if c == 3 {
        Word::ProgramStatus
    } else {
        Word::OnBoard(internal_from_code(c))
    }
}

/// Tries the one-byte instruction shapes against a single opcode byte.
pub(crate) fn try_decode1(b: u8) -> (r: Option<Op>)
    ensures
        r == spec_decode1(b),
{
    proof {
        reveal(spec_decode1);
    }
    if b == 0x00 {
        Some(Op::NOP(4))
    } else if b == 0xEB {
        Some(Op::ExchangeDoubleWithHilo)
    } else if b == 0x76 {
        Some(Op::Halt)
    } else if b == 0xC9 {
        Some(Op::Return)
    } else if b == 0xE3 {
        Some(Op::ExchangeTopWithHilo)
    } else if b == 0x07 {
        Some(Op::RotateLeftCarrying)
    } else if b == 0x0F {
        Some(Op::RotateRightCarrying)
    } else if b == 0x17 {
        Some(Op::RotateAccumulatorLeft)
    } else if b == 0x1F {
        Some(Op::RotateAccumulatorRight)
    } else if b == 0x37 {
        Some(Op::CarryFlag(true))
    } else if b == 0x3F {
        Some(Op::CarryFlag(false))
    } else if b == 0x27 {
        Some(Op::DecimalAddAdjust)
    } else if b == 0x2F {
        Some(Op::ComplementAccumulator)
    } else if b == 0xE9 {
        Some(Op::ProgramCounterFromHilo)
    } else if b == 0xF9 {
        Some(Op::StackPointerFromHilo)
    } else if b == 0xF3 {
        Some(Op::Interrupts(false))
    } else if b == 0xFB {
        Some(Op::Interrupts(true))
    } else if b / 64 == 3 && b % 8 == 7 {
        Some(Op::Reset { vector: b / 8 % 8 })
    } else if b / 64 == 3 && b % 8 == 0 {
        Some(Op::ReturnIf(test_from_code(b / 8 % 8)))
    } else if b / 64 == 0 && b % 8 == 4 {
        Some(Op::IncrementByte { register: byte_from_code(b / 8 % 8) })
    } else if b / 64 == 0 && b % 8 == 5 {
        Some(Op::DecrementByte { register: byte_from_code(b / 8 % 8) })
    } else if b / 64 == 0 && b % 16 == 11 {
        Some(Op::DecrementWord { register: internal_from_code(b / 16 % 4) })
    } else if b / 64 == 0 && b % 16 == 3 {
        Some(Op::IncrementWord { register: internal_from_code(b / 16 % 4) })
    } else if b / 64 == 0 && b % 16 == 9 {
        Some(Op::DoubleAdd { register: internal_from_code(b / 16 % 4) })
    } else if b / 64 == 3 && b % 16 == 5 {
        Some(Op::Push(word_from_code(b / 16 % 4)))
    } else if b / 64 == 3 && b % 16 == 1 {
        Some(Op::Pop(word_from_code(b / 16 % 4)))
    } else if b / 8 == 16 {
        Some(Op::Add { from: byte_from_code(b % 8), carry: false })
    } else if b / 8 == 17 {
        Some(Op::Add { from: byte_from_code(b % 8), carry: true })
    } else if b / 8 == 18 {
        Some(Op::Subtract { from: byte_from_code(b % 8), carry: false })
    } else if b / 8 == 19 {
        Some(Op::Subtract { from: byte_from_code(b % 8), carry: true })
    } else if b / 8 == 20 {
        Some(Op::And { from: byte_from_code(b % 8) })
    } else if b / 8 == 21 {
        Some(Op::ExclusiveOr { from: byte_from_code(b % 8) })
    } else if b / 8 == 22 {
        Some(Op::Or { from: byte_from_code(b % 8) })
    } else if b / 8 == 23 {
        Some(Op::Compare { from: byte_from_code(b % 8) })
    } else if b / 64 == 1 {
        Some(Op::Move { to: byte_from_code(b / 8 % 8), from: byte_from_code(b % 8) })
    } else if b / 32 == 0 && b % 16 == 10 {
        Some(
            Op::LoadAccumulatorIndirect {
                register: if b / 16 % 2 == 1 {
                    Double::DE
                } else {
                    Double::BC
                },
            },
        )
    } else if b / 32 == 0 && b % 16 == 2 {
        Some(
            Op::StoreAccumulatorIndirect {
                register: if b / 16 % 2 == 1 {
                    Double::DE
                } else {
                    Double::BC
                },
            },
        )
    } else {
        None
    }
}

/// Whether a byte that failed the one-byte decode is one of the truly
/// unused primary opcodes.
pub(crate) fn is_unknown(b: u8) -> (r: bool)
    ensures
        r == spec_unknown(b),
{
    b == 0xCB || b == 0xD9 || b == 0xDD || b == 0xED || b == 0xFD || (b / 64 == 0 && b % 8 == 0)
}

/// Tries the two-byte instruction shapes.
pub(crate) fn try_decode2(b0: u8, b1: u8) -> (r: Option<Op>)
    ensures
        r == spec_decode2(b0, b1),
{
    proof {
        reveal(spec_decode2);
    }
    if b0 == 0xC6 {
        Some(Op::AddTo { value: b1, carry: false })
    } else if b0 == 0xCE {
        Some(Op::AddTo { value: b1, carry: true })
    } else if b0 == 0xD6 {
        Some(Op::SubtractBy { value: b1, carry: false })
    } else if b0 == 0xDE {
        Some(Op::SubtractBy { value: b1, carry: true })
    } else if b0 == 0xE6 {
        Some(Op::AndWith { value: b1 })
    } else if b0 == 0xEE {
        Some(Op::ExclusiveOrWith { value: b1 })
    } else if b0 == 0xF6 {
        Some(Op::OrWith { value: b1 })
    } else if b0 == 0xFE {
        Some(Op::CompareWith { value: b1 })
    } else if b0 == 0xD3 {
        Some(Op::Out(b1))
    } else if b0 == 0xDB {
        Some(Op::In(b1))
    } else if b0 / 64 == 0 && b0 % 8 == 6 {
        Some(Op::MoveData { value: b1, to: byte_from_code(b0 / 8 % 8) })
    } else {
        None
    }
}

/// Tries the three-byte instruction shapes.
pub(crate) fn try_decode3(b0: u8, b1: u8, b2: u8) -> (r: Option<Op>)
    ensures
        r == spec_decode3(b0, b1, b2),
{
    proof {
        reveal(spec_decode3);
    }
    let data = b1 as u16 + 256 * (b2 as u16);
    if b0 == 0x2A {
        Some(Op::LoadHilo { address: data })
    } else if b0 == 0x22 {
        Some(Op::StoreHilo { address: data })
    } else if b0 == 0x3A {
        Some(Op::LoadAccumulator { address: data })
    } else if b0 == 0x32 {
        Some(Op::StoreAccumulator { address: data })
    } else if b0 == 0xC3 {
        Some(Op::Jump { to: data })
    } else if b0 == 0xCD {
        Some(Op::Call { sub: data })
    } else if b0 / 64 == 0 && b0 % 16 == 1 {
        Some(Op::LoadExtendedWith { to: internal_from_code(b0 / 16 % 4), value: data })
    } else if b0 / 64 == 3 && b0 % 8 == 2 {
        Some(Op::JumpIf(test_from_code(b0 / 8 % 8), data))
    } else if b0 / 64 == 3 && b0 % 8 == 4 {
        Some(Op::CallIf(test_from_code(b0 / 8 % 8), data))
    } else {
        None
    }
}

/// The architectural byte length of an instruction.
pub open spec fn spec_len(op: Op) -> u8 {
    match op {
        Op::Call { .. } => 3u8,
        Op::CallIf(..) => 3u8,
        Op::Jump { .. } => 3u8,
        Op::JumpIf(..) => 3u8,
        Op::LoadExtendedWith { .. } => 3u8,
        Op::StoreAccumulator { .. } => 3u8,
        Op::LoadAccumulator { .. } => 3u8,
        Op::LoadHilo { .. } => 3u8,
        Op::StoreHilo { .. } => 3u8,
        Op::AddTo { .. } => 2u8,
        Op::AndWith { .. } => 2u8,
        Op::ExclusiveOrWith { .. } => 2u8,
        Op::OrWith { .. } => 2u8,
        Op::SubtractBy { .. } => 2u8,
        Op::CompareWith { .. } => 2u8,
        Op::MoveData { .. } => 2u8,
        Op::Out(..) => 2u8,
        Op::In(..) => 2u8,
        _ => 1u8,
    }
}

impl Op {
    /// The architectural byte length of this instruction: three for the
    /// direct-address and immediate-word forms, two for the
    /// immediate-byte forms, one for everything else.
    pub fn len(&self) -> (r: u8)
        ensures
            r == spec_len(*self),
    {
        match self {
            Op::Call { .. } | Op::CallIf(..) | Op::Jump { .. } | Op::JumpIf(..)
                | Op::LoadExtendedWith { .. } | Op::StoreAccumulator { .. }
                | Op::LoadAccumulator { .. } | Op::LoadHilo { .. } | Op::StoreHilo { .. } => 3,
            Op::AddTo { .. } | Op::AndWith { .. } | Op::ExclusiveOrWith { .. } | Op::OrWith {
                ..
            } | Op::SubtractBy { .. } | Op::CompareWith { .. } | Op::MoveData { .. } | Op::Out(
                ..,
            ) | Op::In(..) => 2,
            _ => 1,
        }
    }

    /// Decodes the shortest instruction at the front of `feed`: the
    /// one-byte shapes are tried first, then the unknown-opcode list, then
    /// the two- and three-byte shapes.  No byte past the returned length is
    /// ever inspected.
    pub fn extract(feed: &[u8]) -> (r: Result<(Op, usize), Error>)
        ensures
            match r {
                Ok((op, len)) => spec_extract(feed@) == Ok::<(Op, int), Error>((op, len as int)),
                Err(e) => spec_extract(feed@) == Err::<(Op, int), Error>(e),
            },
    {
        if feed.len() == 0 {
            return Err(Error::NoData);
        }
        let b0 = feed[0];
        match try_decode1(b0) {
            Some(op) => {
                return Ok((op, 1));
            },
            None => {},
        }
        if is_unknown(b0) {
            return Err(Error::Unknown(b0));
        }
        if feed.len() < 2 {
            return Err(Error::Invalid(b0));
        }
        let b1 = feed[1];
        match try_decode2(b0, b1) {
            Some(op) => {
                return Ok((op, 2));
            },
            None => {},
        }
        if feed.len() < 3 {
            return Err(Error::InvalidPair(b0, b1));
        }
        let b2 = feed[2];
        match try_decode3(b0, b1, b2) {
            Some(op) => Ok((op, 3)),
            None => Err(Error::InvalidTriple(b0, b1, b2)),
        }
    }
}

/// Whether an `Op` value has a bit-level encoding: direct-RAM operands, the
/// program counter as a pair field, pair `HL` in the indirect accumulator
/// forms, push/pop targets other than a pair or the PSW, a memory-to-memory
/// move (its slot is `HLT`), a reset vector above 7 and a `NOP` with a
/// cycle count other than 4 have none.
pub open spec fn spec_encodable(op: Op) -> bool {
    match op {
        Op::NOP(n) => n == 4,
        Op::Add { from, .. } => spec_byte_code(from) < 8,
        Op::Subtract { from, .. } => spec_byte_code(from) < 8,
        Op::And { from } => spec_byte_code(from) < 8,
        Op::ExclusiveOr { from } => spec_byte_code(from) < 8,
        Op::Or { from } => spec_byte_code(from) < 8,
        Op::Compare { from } => spec_byte_code(from) < 8,
        Op::IncrementByte { register } => spec_byte_code(register) < 8,
        Op::DecrementByte { register } => spec_byte_code(register) < 8,
        Op::Move { to, from } => spec_byte_code(to) < 8 && spec_byte_code(from) < 8 && !(to
            is Indirect && from is Indirect),
        Op::MoveData { to, .. } => spec_byte_code(to) < 8,
        Op::IncrementWord { register } => spec_internal_code(register) < 4,
        Op::DecrementWord { register } => spec_internal_code(register) < 4,
        Op::DoubleAdd { register } => spec_internal_code(register) < 4,
        Op::LoadExtendedWith { to, .. } => spec_internal_code(to) < 4,
        Op::Push(w) => w matches Word::OnBoard(Internal::Wide(_)) || w is ProgramStatus,
        Op::Pop(w) => w matches Word::OnBoard(Internal::Wide(_)) || w is ProgramStatus,
        Op::LoadAccumulatorIndirect { register } => register != Double::HL,
        Op::StoreAccumulatorIndirect { register } => register != Double::HL,
        Op::Reset { vector } => vector < 8,
        _ => true,
    }
}

/// The canonical byte sequence for an encodable `Op`: one to three bytes,
/// operand words little-endian.
pub open spec fn spec_encode(op: Op) -> Seq<u8> {
    match op {
        Op::NOP(..) => seq![0u8],
        Op::Add { from, carry } => seq![
            (128 + (if carry {
                8int
            } else {
                0int
            }) + spec_byte_code(from)) as u8,
        ],
        Op::Subtract { from, carry } => seq![
            (144 + (if carry {
                8int
            } else {
                0int
            }) + spec_byte_code(from)) as u8,
        ],
        Op::And { from } => seq![(160 + spec_byte_code(from)) as u8],
        Op::ExclusiveOr { from } => seq![(168 + spec_byte_code(from)) as u8],
        Op::Or { from } => seq![(176 + spec_byte_code(from)) as u8],
        Op::Compare { from } => seq![(184 + spec_byte_code(from)) as u8],
        Op::AddTo { value, carry } => seq![
            (198 + (if carry {
                8int
            } else {
                0int
            })) as u8,
            value,
        ],
        Op::SubtractBy { value, carry } => seq![
            (214 + (if carry {
                8int
            } else {
                0int
            })) as u8,
            value,
        ],
        Op::AndWith { value } => seq![230u8, value],
        Op::ExclusiveOrWith { value } => seq![238u8, value],
        Op::OrWith { value } => seq![246u8, value],
        Op::CompareWith { value } => seq![254u8, value],
        Op::Call { sub } => seq![205u8, (sub % 256) as u8, (sub / 256) as u8],
        Op::CallIf(test, sub) => seq![
            (196 + 8 * spec_test_code(test)) as u8,
            (sub % 256) as u8,
            (sub / 256) as u8,
        ],
        Op::CarryFlag(set) => seq![
            if set {
                55u8
            } else {
                63u8
            },
        ],
        Op::ComplementAccumulator => seq![47u8],
        Op::DecimalAddAdjust => seq![39u8],
        Op::DecrementByte { register } => seq![(5 + 8 * spec_byte_code(register)) as u8],
        Op::DecrementWord { register } => seq![(11 + 16 * spec_internal_code(register)) as u8],
        Op::DoubleAdd { register } => seq![(9 + 16 * spec_internal_code(register)) as u8],
        Op::ExchangeDoubleWithHilo => seq![235u8],
        Op::ExchangeTopWithHilo => seq![227u8],
        Op::Halt => seq![118u8],
        Op::In(port) => seq![219u8, port],
        Op::Out(port) => seq![211u8, port],
        Op::IncrementByte { register } => seq![(4 + 8 * spec_byte_code(register)) as u8],
        Op::IncrementWord { register } => seq![(3 + 16 * spec_internal_code(register)) as u8],
        Op::Interrupts(accepted) => seq![
            if accepted {
                251u8
            } else {
                243u8
            },
        ],
        Op::Jump { to } => seq![195u8, (to % 256) as u8, (to / 256) as u8],
        Op::JumpIf(test, to) => seq![
            (194 + 8 * spec_test_code(test)) as u8,
            (to % 256) as u8,
            (to / 256) as u8,
        ],
        Op::LoadAccumulator { address } => seq![
            58u8,
            (address % 256) as u8,
            (address / 256) as u8,
        ],
        Op::LoadAccumulatorIndirect { register } => seq![
            if register == Double::DE {
                26u8
            } else {
                10u8
            },
        ],
        Op::LoadExtendedWith { to, value } => seq![
            (1 + 16 * spec_internal_code(to)) as u8,
            (value % 256) as u8,
            (value / 256) as u8,
        ],
        Op::LoadHilo { address } => seq![42u8, (address % 256) as u8, (address / 256) as u8],
        Op::Move { to, from } => seq![
            (64 + 8 * spec_byte_code(to) + spec_byte_code(from)) as u8,
        ],
        Op::MoveData { value, to } => seq![(6 + 8 * spec_byte_code(to)) as u8, value],
        Op::Pop(target) => seq![(193 + 16 * spec_word_code(target)) as u8],
        Op::Push(source) => seq![(197 + 16 * spec_word_code(source)) as u8],
        Op::ProgramCounterFromHilo => seq![233u8],
        Op::StackPointerFromHilo => seq![249u8],
        Op::Reset { vector } => seq![(199 + 8 * vector) as u8],
        Op::Return => seq![201u8],
        Op::ReturnIf(test) => seq![(192 + 8 * spec_test_code(test)) as u8],
        Op::RotateLeftCarrying => seq![7u8],
        Op::RotateRightCarrying => seq![15u8],
        Op::RotateAccumulatorLeft => seq![23u8],
        Op::RotateAccumulatorRight => seq![31u8],
        Op::StoreAccumulator { address } => seq![
            50u8,
            (address % 256) as u8,
            (address / 256) as u8,
        ],
        Op::StoreAccumulatorIndirect { register } => seq![
            if register == Double::DE {
                18u8
            } else {
                2u8
            },
        ],
        Op::StoreHilo { address } => seq![34u8, (address % 256) as u8, (address / 256) as u8],
    }
}

/// Encoding a byte location and reading the field back names the same
/// location.
pub proof fn lemma_byte_code_inverse(b: Byte)
    requires
        spec_byte_code(b) < 8,
    ensures
        spec_byte_from_code(spec_byte_code(b)) == b,
{
}

/// Encoding a branch condition and reading the field back names the same
/// condition, and the field fits in three bits.
pub proof fn lemma_test_code_inverse(t: Test)
    ensures
        spec_test_code(t) < 8,
        spec_test_from_code(spec_test_code(t)) == t,
{
}

/// Encoding a 16-bit register and reading the field back names the same
/// register, for the registers that have an encoding.
pub proof fn lemma_internal_code_inverse(i: Internal)
    requires
        spec_internal_code(i) < 4,
    ensures
        spec_internal_from_code(spec_internal_code(i)) == i,
{
}

/// Encoding a push/pop target and reading the field back names the same
/// target, for the targets that have an encoding.
pub proof fn lemma_word_code_inverse(w: Word)
    requires
        w matches Word::OnBoard(Internal::Wide(_)) || w is ProgramStatus,
    ensures
        spec_word_code(w) < 4,
        spec_word_from_code(spec_word_code(w)) == w,
{
}

#[verifier::rlimit(100)]
#[verifier::spinoff_prover]
proof fn lemma_round_trip_arithmetic(op: Op)
    requires
        spec_encodable(op),
        ({
            ||| op matches Op::Add { .. }
            ||| op matches Op::AddTo { .. }
            ||| op matches Op::And { .. }
            ||| op matches Op::AndWith { .. }
            ||| op matches Op::Compare { .. }
            ||| op matches Op::CompareWith { .. }
            ||| op matches Op::ComplementAccumulator
            ||| op matches Op::DecimalAddAdjust
            ||| op matches Op::CarryFlag(..)
            ||| op matches Op::ExclusiveOr { .. }
            ||| op matches Op::ExclusiveOrWith { .. }
            ||| op matches Op::Or { .. }
            ||| op matches Op::OrWith { .. }
            ||| op matches Op::Subtract { .. }
            ||| op matches Op::SubtractBy { .. }
            ||| op matches Op::RotateLeftCarrying
            ||| op matches Op::RotateRightCarrying
            ||| op matches Op::RotateAccumulatorLeft
            ||| op matches Op::RotateAccumulatorRight
            ||| op matches Op::IncrementByte { .. }
            ||| op matches Op::DecrementByte { .. }
        }),
    ensures
        spec_encode(op).len() == spec_len(op),
        spec_extract(spec_encode(op)) == Ok::<(Op, int), Error>((op, spec_len(op) as int)),
{
    reveal(spec_decode1);
    reveal(spec_decode2);
    reveal(spec_decode3);
    match op {
        Op::Add { from, carry } => lemma_byte_code_inverse(from),
        Op::And { from } => lemma_byte_code_inverse(from),
        Op::Compare { from } => lemma_byte_code_inverse(from),
        Op::ExclusiveOr { from } => lemma_byte_code_inverse(from),
        Op::Or { from } => lemma_byte_code_inverse(from),
        Op::Subtract { from, carry } => lemma_byte_code_inverse(from),
        Op::IncrementByte { register } => lemma_byte_code_inverse(register),
        Op::DecrementByte { register } => lemma_byte_code_inverse(register),
        _ => {},
    }
}

#[verifier::rlimit(100)]
#[verifier::spinoff_prover]
proof fn lemma_round_trip_transfer(op: Op)
    requires
        spec_encodable(op),
        ({
            ||| op matches Op::IncrementWord { .. }
            ||| op matches Op::DecrementWord { .. }
            ||| op matches Op::DoubleAdd { .. }
            ||| op matches Op::ExchangeDoubleWithHilo
            ||| op matches Op::ExchangeTopWithHilo
            ||| op matches Op::LoadExtendedWith { .. }
            ||| op matches Op::LoadHilo { .. }
            ||| op matches Op::StoreHilo { .. }
            ||| op matches Op::ProgramCounterFromHilo
            ||| op matches Op::StackPointerFromHilo
            ||| op matches Op::Push(..)
            ||| op matches Op::Pop(..)
            ||| op matches Op::LoadAccumulator { .. }
            ||| op matches Op::LoadAccumulatorIndirect { .. }
            ||| op matches Op::StoreAccumulator { .. }
            ||| op matches Op::StoreAccumulatorIndirect { .. }
            ||| op matches Op::Move { .. }
            ||| op matches Op::MoveData { .. }
            ||| op matches Op::In(..)
            ||| op matches Op::Out(..)
        }),
    ensures
        spec_encode(op).len() == spec_len(op),
        spec_extract(spec_encode(op)) == Ok::<(Op, int), Error>((op, spec_len(op) as int)),
{
    reveal(spec_decode1);
    reveal(spec_decode2);
    reveal(spec_decode3);
    match op {
        Op::IncrementWord { register } => lemma_internal_code_inverse(register),
        Op::DecrementWord { register } => lemma_internal_code_inverse(register),
        Op::DoubleAdd { register } => lemma_internal_code_inverse(register),
        Op::LoadExtendedWith { to, .. } => lemma_internal_code_inverse(to),
        Op::Push(w) => lemma_word_code_inverse(w),
        Op::Pop(w) => lemma_word_code_inverse(w),
        Op::Move { to, from } => {
            lemma_byte_code_inverse(to);
            lemma_byte_code_inverse(from);
        },
        Op::MoveData { to, .. } => lemma_byte_code_inverse(to),
        _ => {},
    }
}

#[verifier::rlimit(100)]
#[verifier::spinoff_prover]
proof fn lemma_round_trip_control(op: Op)
    requires
        spec_encodable(op),
        ({
            ||| op matches Op::Call { .. }
            ||| op matches Op::CallIf(..)
            ||| op matches Op::Jump { .. }
            ||| op matches Op::JumpIf(..)
            ||| op matches Op::Return
            ||| op matches Op::ReturnIf(..)
            ||| op matches Op::Reset { .. }
            ||| op matches Op::Halt
            ||| op matches Op::Interrupts(..)
            ||| op matches Op::NOP(..)
        }),
    ensures
        spec_encode(op).len() == spec_len(op),
        spec_extract(spec_encode(op)) == Ok::<(Op, int), Error>((op, spec_len(op) as int)),
{
    reveal(spec_decode1);
    reveal(spec_decode2);
    reveal(spec_decode3);
    match op {
        Op::CallIf(test, ..) => lemma_test_code_inverse(test),
        Op::JumpIf(test, ..) => lemma_test_code_inverse(test),
        Op::ReturnIf(test) => lemma_test_code_inverse(test),
        _ => {},
    }
}

/// Round trip of the codec: decoding the canonical encoding of any
/// encodable `Op` yields the same `Op` back, consuming exactly its
/// architectural length.
pub proof fn lemma_codec_round_trip(op: Op)
    requires
        spec_encodable(op),
    ensures
        spec_encode(op).len() == spec_len(op),
        spec_extract(spec_encode(op)) == Ok::<(Op, int), Error>((op, spec_len(op) as int)),
{
    match op {
            Op::Add { .. }
            | Op::AddTo { .. }
            | Op::And { .. }
            | Op::AndWith { .. }
            | Op::Compare { .. }
            | Op::CompareWith { .. }
            | Op::ComplementAccumulator
            | Op::DecimalAddAdjust
            | Op::CarryFlag(..)
            | Op::ExclusiveOr { .. }
            | Op::ExclusiveOrWith { .. }
            | Op::Or { .. }
            | Op::OrWith { .. }
            | Op::Subtract { .. }
            | Op::SubtractBy { .. }
            | Op::RotateLeftCarrying
            | Op::RotateRightCarrying
            | Op::RotateAccumulatorLeft
            | Op::RotateAccumulatorRight
            | Op::IncrementByte { .. }
            | Op::DecrementByte { .. } => lemma_round_trip_arithmetic(op),
            Op::IncrementWord { .. }
            | Op::DecrementWord { .. }
            | Op::DoubleAdd { .. }
            | Op::ExchangeDoubleWithHilo
            | Op::ExchangeTopWithHilo
            | Op::LoadExtendedWith { .. }
            | Op::LoadHilo { .. }
            | Op::StoreHilo { .. }
            | Op::ProgramCounterFromHilo
            | Op::StackPointerFromHilo
            | Op::Push(..)
            | Op::Pop(..)
            | Op::LoadAccumulator { .. }
            | Op::LoadAccumulatorIndirect { .. }
            | Op::StoreAccumulator { .. }
            | Op::StoreAccumulatorIndirect { .. }
            | Op::Move { .. }
            | Op::MoveData { .. }
            | Op::In(..)
            | Op::Out(..) => lemma_round_trip_transfer(op),
            Op::Call { .. }
            | Op::CallIf(..)
            | Op::Jump { .. }
            | Op::JumpIf(..)
            | Op::Return
            | Op::ReturnIf(..)
            | Op::Reset { .. }
            | Op::Halt
            | Op::Interrupts(..)
            | Op::NOP(..) => lemma_round_trip_control(op),
    }
}

/// Total decode coverage: fed any three bytes, the decoder either returns
/// an instruction of length one to three or reports the first byte
/// unknown — no other error is reachable with three bytes in hand.
pub proof fn lemma_decode_total(b0: u8, b1: u8, b2: u8)
    ensures
        match spec_extract(seq![b0, b1, b2]) {
            Ok((op, len)) => 1 <= len <= 3,
            Err(e) => e == Error::Unknown(b0),
        },
{
    reveal(spec_decode1);
    reveal(spec_decode2);
    reveal(spec_decode3);
}

impl Op {
    /// The canonical wire form of this instruction: the length in the first
    /// slot, then the one to three instruction bytes, zero-padded.
    pub fn encode(&self) -> (r: [u8; 4])
        requires
            spec_encodable(*self),
        ensures
            r[0] == spec_len(*self),
            spec_encode(*self) == match r[0] {
                1u8 => seq![r[1]],
                2u8 => seq![r[1], r[2]],
                _ => seq![r[1], r[2], r[3]],
            },
            r[0] < 2 ==> r[2] == 0,
            r[0] < 3 ==> r[3] == 0,
    {
        match *self {
            Op::NOP(..) => [1, 0, 0, 0],
            Op::Add { from, carry } => [
                1,
                128 + (if carry {
                    8u8
                } else {
                    0u8
                }) + byte_code(from),
                0,
                0,
            ],
            Op::Subtract { from, carry } => [
                1,
                144 + (if carry {
                    8u8
                } else {
                    0u8
                }) + byte_code(from),
                0,
                0,
            ],
            Op::And { from } => [1, 160 + byte_code(from), 0, 0],
            Op::ExclusiveOr { from } => [1, 168 + byte_code(from), 0, 0],
            Op::Or { from } => [1, 176 + byte_code(from), 0, 0],
            Op::Compare { from } => [1, 184 + byte_code(from), 0, 0],
            Op::AddTo { value, carry } => [
                2,
                198 + (if carry {
                    8u8
                } else {
                    0u8
                }),
                value,
                0,
            ],
            Op::SubtractBy { value, carry } => [
                2,
                214 + (if carry {
                    8u8
                } else {
                    0u8
                }),
                value,
                0,
            ],
            Op::AndWith { value } => [2, 230, value, 0],
            Op::ExclusiveOrWith { value } => [2, 238, value, 0],
            Op::OrWith { value } => [2, 246, value, 0],
            Op::CompareWith { value } => [2, 254, value, 0],
            Op::Call { sub } => [3, 205, (sub % 256) as u8, (sub / 256) as u8],
            Op::CallIf(test, sub) => [
                3,
                196 + 8 * test_code(test),
                (sub % 256) as u8,
                (sub / 256) as u8,
            ],
            Op::CarryFlag(set) => [
                1,
                if set {
                    55
                } else {
                    63
                },
                0,
                0,
            ],
            Op::ComplementAccumulator => [1, 47, 0, 0],
            Op::DecimalAddAdjust => [1, 39, 0, 0],
            Op::DecrementByte { register } => [1, 5 + 8 * byte_code(register), 0, 0],
            Op::DecrementWord { register } => [1, 11 + 16 * internal_code(register), 0, 0],
            Op::DoubleAdd { register } => [1, 9 + 16 * internal_code(register), 0, 0],
            Op::ExchangeDoubleWithHilo => [1, 235, 0, 0],
            Op::ExchangeTopWithHilo => [1, 227, 0, 0],
            Op::Halt => [1, 118, 0, 0],
            Op::In(port) => [2, 219, port, 0],
            Op::Out(port) => [2, 211, port, 0],
            Op::IncrementByte { register } => [1, 4 + 8 * byte_code(register), 0, 0],
            Op::IncrementWord { register } => [1, 3 + 16 * internal_code(register), 0, 0],
            Op::Interrupts(accepted) => [
                1,
                if accepted {
                    251
                } else {
                    243
                },
                0,
                0,
            ],
            Op::Jump { to } => [3, 195, (to % 256) as u8, (to / 256) as u8],
            Op::JumpIf(test, to) => [
                3,
                194 + 8 * test_code(test),
                (to % 256) as u8,
                (to / 256) as u8,
            ],
            Op::LoadAccumulator { address } => [3, 58, (address % 256) as u8, (address / 256) as u8],
            Op::LoadAccumulatorIndirect { register } => [
                1,
                if register == Double::DE {
                    26
                } else {
                    10
                },
                0,
                0,
            ],
            Op::LoadExtendedWith { to, value } => [
                3,
                1 + 16 * internal_code(to),
                (value % 256) as u8,
                (value / 256) as u8,
            ],
            Op::LoadHilo { address } => [3, 42, (address % 256) as u8, (address / 256) as u8],
            Op::Move { to, from } => [1, 64 + 8 * byte_code(to) + byte_code(from), 0, 0],
            Op::MoveData { value, to } => [2, 6 + 8 * byte_code(to), value, 0],
            Op::Pop(target) => [1, 193 + 16 * word_code(target), 0, 0],
            Op::Push(source) => [1, 197 + 16 * word_code(source), 0, 0],
            Op::ProgramCounterFromHilo => [1, 233, 0, 0],
            Op::StackPointerFromHilo => [1, 249, 0, 0],
            Op::Reset { vector } => [1, 199 + 8 * vector, 0, 0],
            Op::Return => [1, 201, 0, 0],
            Op::ReturnIf(test) => [1, 192 + 8 * test_code(test), 0, 0],
            Op::RotateLeftCarrying => [1, 7, 0, 0],
            Op::RotateRightCarrying => [1, 15, 0, 0],
            Op::RotateAccumulatorLeft => [1, 23, 0, 0],
            Op::RotateAccumulatorRight => [1, 31, 0, 0],
            Op::StoreAccumulator { address } => [
                3,
                50,
                (address % 256) as u8,
                (address / 256) as u8,
            ],
            Op::StoreAccumulatorIndirect { register } => [
                1,
                if register == Double::DE {
                    18
                } else {
                    2
                },
                0,
                0,
            ],
            Op::StoreHilo { address } => [3, 34, (address % 256) as u8, (address / 256) as u8],
        }
    }
}

/// The three-bit field of a byte location.
fn byte_code(b: Byte) -> (r: u8)
    requires
        spec_byte_code(b) < 8,
    ensures
        r == spec_byte_code(b),
{
    match b {
        Byte::Single(Register::B) => 0,
        Byte::Single(Register::C) => 1,
        Byte::Single(Register::D) => 2,
        Byte::Single(Register::E) => 3,
        Byte::Single(Register::H) => 4,
        Byte::Single(Register::L) => 5,
        Byte::Single(Register::A) => 7,
        _ => 6,
    }
}

/// The three-bit field of a branch condition.
fn test_code(t: Test) -> (r: u8)
    ensures
        r == spec_test_code(t),
{
    let (flag, is): (Flag, u8) = match t {
        Test::Not(f) => (f, 0),
        Test::Is(f) => (f, 1),
    };
    let f: u8 = match flag {
        Flag::Zero => 0,
        Flag::Carry => 1,
        Flag::EvenParity => 2,
        Flag::Negative => 3,
    };
    2 * f + is
}

/// The two-bit register-pair field of a 16-bit register.
fn internal_code(i: Internal) -> (r: u8)
    requires
        spec_internal_code(i) < 4,
    ensures
        r == spec_internal_code(i),
{
    match i {
        Internal::Wide(Double::BC) => 0,
        Internal::Wide(Double::DE) => 1,
        Internal::Wide(Double::HL) => 2,
        _ => 3,
    }
}

/// The two-bit field of a push/pop target.
fn word_code(w: Word) -> (r: u8)
    requires
        w matches Word::OnBoard(Internal::Wide(_)) || w is ProgramStatus,
    ensures
        r == spec_word_code(w),
{
    match w {
        Word::OnBoard(Internal::Wide(Double::BC)) => 0,
        Word::OnBoard(Internal::Wide(Double::DE)) => 1,
        Word::OnBoard(Internal::Wide(Double::HL)) => 2,
        _ => 3,
    }
}

} // verus!
