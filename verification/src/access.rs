//! Operand locations: byte registers, register pairs, the 16-bit internal
//! registers and the word-sized read/write targets of the 8080.

use vstd::prelude::*;
use crate::state::Register;
use crate::state::State;
use crate::state::spec_register;
use crate::state::spec_with_register;

verus! {

/// A register pair, interpreted as a 16-bit value whose more-significant
/// byte lives in `B`, `D` or `H` and whose less-significant byte lives in
/// `C`, `E` or `L`.
#[derive(Debug, Clone, Copy, PartialEq, Eq, Structural)]
pub enum Double {
    BC,
    DE,
    HL,
}

/// Any one-byte region that can be named for a read or a write.
#[derive(Debug, Clone, Copy, PartialEq, Eq, Structural)]
pub enum Byte {
    /// A byte register on the chip.
    Single(Register),
    /// The byte in memory at the address held in the `HL` pair.
    Indirect,
    /// The byte in memory at a fixed address.
    RAM(u16),
}

/// Any of the 16-bit registers of the CPU: a register pair, the program
/// counter or the stack pointer.
#[derive(Debug, Clone, Copy, PartialEq, Eq, Structural)]
pub enum Internal {
    Wide(Double),
    ProgramCounter,
    StackPointer,
}

/// A word-sized read or write target.
#[derive(Debug, Clone, Copy, PartialEq, Eq, Structural)]
pub enum Word {
    /// A 16-bit register on the chip.
    OnBoard(Internal),
    /// The program status word: accumulator and packed flags.
    ProgramStatus,
    /// The word in memory at a fixed address.
    RAM(u16),
    /// The stack: a read pops, a write pushes.
    Stack,
}

/// The value of a register pair: the high register times 256 plus the low
/// register.
pub open spec fn spec_pair(s: State, d: Double) -> u16 {
    match d {
        Double::BC => (s.reg_b * 256 + s.reg_c) as u16,
        Double::DE => (s.reg_d * 256 + s.reg_e) as u16,
        Double::HL => (s.reg_h * 256 + s.reg_l) as u16,
    }
}

/// The state with one register pair replaced: the high register takes the
/// high byte of `v` and the low register its low byte.
pub open spec fn spec_with_pair(s: State, d: Double, v: u16) -> State {
    match d {
        Double::BC => State { reg_b: (v / 256) as u8, reg_c: (v % 256) as u8, ..s },
        Double::DE => State { reg_d: (v / 256) as u8, reg_e: (v % 256) as u8, ..s },
        Double::HL => State { reg_h: (v / 256) as u8, reg_l: (v % 256) as u8, ..s },
    }
}

/// The value a 16-bit register tag selects from a state.
pub open spec fn spec_word(s: State, i: Internal) -> u16 {
    match i {
        Internal::Wide(d) => spec_pair(s, d),
        Internal::ProgramCounter => s.pc,
        Internal::StackPointer => s.sp,
    }
}

/// The state with one 16-bit register replaced.
pub open spec fn spec_with_word(s: State, i: Internal, v: u16) -> State {
    match i {
        Internal::Wide(d) => spec_with_pair(s, d, v),
        Internal::ProgramCounter => State { pc: v, ..s },
        Internal::StackPointer => State { sp: v, ..s },
    }
}

/// `Indirect` collapsed to the byte in memory addressed by `HL`; every
/// other location is left unchanged.
pub open spec fn spec_resolve(s: State, target: Byte) -> Byte {
    match target {
        Byte::Indirect => Byte::RAM(spec_pair(s, Double::HL)),
        _ => target,
    }
}

impl State {
    /// Reads a register pair; the result is the high register times 256
    /// plus the low register.
    pub fn get_pair(&self, d: Double) -> (v: u16)
        ensures
            v == spec_pair(*self, d),
    {
        let (hi, lo): (u8, u8) = match d {
            Double::BC => (self.reg_b, self.reg_c),
            Double::DE => (self.reg_d, self.reg_e),
            Double::HL => (self.reg_h, self.reg_l),
        };
        hi as u16 * 256 + lo as u16
    }

    /// Writes a register pair: the high register takes the high byte and
    /// the low register the low byte.
    pub fn set_pair(&mut self, d: Double, v: u16)
        ensures
            *final(self) == spec_with_pair(*old(self), d, v),
    {
        let hi = (v / 256) as u8;
        let lo = (v % 256) as u8;
        match d {
            Double::BC => {
                self.reg_b = hi;
                self.reg_c = lo;
            },
            Double::DE => {
                self.reg_d = hi;
                self.reg_e = lo;
            },
            Double::HL => {
                self.reg_h = hi;
                self.reg_l = lo;
            },
        }
    }

    /// Reads any 16-bit register: a pair, the program counter or the stack
    /// pointer.
    pub fn get_word(&self, i: Internal) -> (v: u16)
        ensures
            v == spec_word(*self, i),
    {
        match i {
            Internal::Wide(d) => self.get_pair(d),
            Internal::ProgramCounter => self.pc,
            Internal::StackPointer => self.sp,
        }
    }

    /// Writes any 16-bit register.
    pub fn set_word(&mut self, i: Internal, v: u16)
        ensures
            *final(self) == spec_with_word(*old(self), i, v),
    {
        match i {
            Internal::Wide(d) => self.set_pair(d, v),
            Internal::ProgramCounter => self.pc = v,
            Internal::StackPointer => self.sp = v,
        }
    }

    /// Collapses `Indirect` to the byte in memory addressed by `HL`; every
    /// other location is returned unchanged.
    pub fn resolve(&self, target: Byte) -> (r: Byte)
        ensures
            r == spec_resolve(*self, target),
    {
        match target {
            Byte::Indirect => Byte::RAM(self.get_pair(Double::HL)),
            _ => target,
        }
    }
}

/// Reading a pair after writing its two registers — in either order, or
/// through `set_pair` itself — yields the high register shifted up by eight
/// bits joined with the low register.
pub proof fn lemma_pair_composition(s: State, d: Double, v: u16)
    ensures
        spec_pair(s, Double::BC) == s.reg_b * 256 + s.reg_c,
        spec_pair(s, Double::DE) == s.reg_d * 256 + s.reg_e,
        spec_pair(s, Double::HL) == s.reg_h * 256 + s.reg_l,
        spec_pair(spec_with_pair(s, d, v), d) == v,
{
}

} // verus!
