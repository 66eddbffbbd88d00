//! The register file and flag unit of the 8080 core.

use vstd::prelude::*;

verus! {

/// The seven byte registers of the 8080.
#[derive(Debug, Clone, Copy, PartialEq, Eq, Structural)]
pub enum Register {
    A,
    B,
    C,
    D,
    E,
    H,
    L,
}

/// The internal registers and flags of the 8080 CPU.
///
/// The five condition flags keep the field names of the PSW layout:
/// `c` carry, `a` auxiliary carry, `p` even parity, `m` sign (minus),
/// `z` zero.
#[derive(Debug, Clone, Copy, PartialEq, Eq, Structural)]
pub struct State {
    /// Program counter; all arithmetic on it wraps modulo 2^16.
    pub pc: u16,
    /// Stack pointer; all arithmetic on it wraps modulo 2^16.
    pub sp: u16,
    /// The B register.
    pub reg_b: u8,
    /// The C register.
    pub reg_c: u8,
    /// The D register.
    pub reg_d: u8,
    /// The E register.
    pub reg_e: u8,
    /// The H register.
    pub reg_h: u8,
    /// The L register.
    pub reg_l: u8,
    /// The accumulator.
    pub reg_a: u8,
    /// Carry flag.
    pub c: bool,
    /// Auxiliary-carry flag: carry out of bit 3 on the last arithmetic step.
    pub a: bool,
    /// Parity flag: set iff the last flag-setting result had an even number
    /// of one bits.
    pub p: bool,
    /// Sign flag: set iff bit 7 of the last flag-setting result was set.
    pub m: bool,
    /// Zero flag.
    pub z: bool,
    /// False when the processor is halted.
    pub active: bool,
    /// True iff interrupts are accepted.
    pub interrupts: bool,
}

/// Even parity of the eight bits of `v`: true iff `v` has an even number of
/// one bits.
pub open spec fn spec_parity_even(v: u8) -> bool {
    (v % 2 + v / 2 % 2 + v / 4 % 2 + v / 8 % 2 + v / 16 % 2 + v / 32 % 2 + v / 64 % 2
        + v / 128) % 2 == 0
}

/// The value a register tag selects from a state.
pub open spec fn spec_register(s: State, r: Register) -> u8 {
    match r {
        Register::A => s.reg_a,
        Register::B => s.reg_b,
        Register::C => s.reg_c,
        Register::D => s.reg_d,
        Register::E => s.reg_e,
        Register::H => s.reg_h,
        Register::L => s.reg_l,
    }
}

/// The state with one register replaced.
pub open spec fn spec_with_register(s: State, r: Register, v: u8) -> State {
    match r {
        Register::A => State { reg_a: v, ..s },
        Register::B => State { reg_b: v, ..s },
        Register::C => State { reg_c: v, ..s },
        Register::D => State { reg_d: v, ..s },
        Register::E => State { reg_e: v, ..s },
        Register::H => State { reg_h: v, ..s },
        Register::L => State { reg_l: v, ..s },
    }
}

/// The packed flag byte in PSW layout `m z 0 a 0 p 1 c` (bit 7 down to
/// bit 0): bit 1 is constantly one and bits 3 and 5 constantly zero.
pub open spec fn spec_flags(s: State) -> u8 {
    ((if s.c {
        1int
    } else {
        0int
    }) + 2 + (if s.p {
        4int
    } else {
        0int
    }) + (if s.a {
        16int
    } else {
        0int
    }) + (if s.z {
        64int
    } else {
        0int
    }) + (if s.m {
        128int
    } else {
        0int
    })) as u8
}

impl State {
    /// Creates a fresh state: processor active, interrupts disabled, every
    /// register, flag, the program counter and the stack pointer reset.
    pub fn new() -> (r: State)
        ensures
            r == (State {
                pc: 0u16,
                sp: 0u16,
                reg_b: 0u8,
                reg_c: 0u8,
                reg_d: 0u8,
                reg_e: 0u8,
                reg_h: 0u8,
                reg_l: 0u8,
                reg_a: 0u8,
                c: false,
                a: false,
                p: false,
                m: false,
                z: false,
                active: true,
                interrupts: false,
            }),
    {
        State {
            pc: 0,
            sp: 0,
            reg_b: 0,
            reg_c: 0,
            reg_d: 0,
            reg_e: 0,
            reg_h: 0,
            reg_l: 0,
            reg_a: 0,
            c: false,
            a: false,
            p: false,
            m: false,
            z: false,
            active: true,
            interrupts: false,
        }
    }

    /// Reads one byte register.
    pub fn get_register(&self, r: Register) -> (v: u8)
        ensures
            v == spec_register(*self, r),
    {
        match r {
            Register::A => self.reg_a,
            Register::B => self.reg_b,
            Register::C => self.reg_c,
            Register::D => self.reg_d,
            Register::E => self.reg_e,
            Register::H => self.reg_h,
            Register::L => self.reg_l,
        }
    }

    /// Writes one byte register.
    pub fn set_register(&mut self, r: Register, v: u8)
        ensures
            *final(self) == spec_with_register(*old(self), r, v),
    {
        match r {
            Register::A => self.reg_a = v,
            Register::B => self.reg_b = v,
            Register::C => self.reg_c = v,
            Register::D => self.reg_d = v,
            Register::E => self.reg_e = v,
            Register::H => self.reg_h = v,
            Register::L => self.reg_l = v,
        }
    }

    /// The flag bits packed in the PSW layout `m z 0 a 0 p 1 c` from bit 7
    /// down to bit 0.
    pub fn flags(&self) -> (r: u8)
        ensures
            r == spec_flags(*self),
    {
        (if self.c {
            1u8
        } else {
            0u8
        }) + 2 + (if self.p {
            4u8
        } else {
            0u8
        }) + (if self.a {
            16u8
        } else {
            0u8
        }) + (if self.z {
            64u8
        } else {
            0u8
        }) + (if self.m {
            128u8
        } else {
            0u8
        })
    }
}

/// Bits 1, 3 and 5 of the packed flag byte are constantly 1, 0 and 0, in
/// every state — in particular after any instruction.
pub proof fn lemma_flags_fixed_bits(s: State)
    ensures
        spec_flags(s) / 2 % 2 == 1,
        spec_flags(s) / 8 % 2 == 0,
        spec_flags(s) / 32 % 2 == 0,
{
}

/// The program counter and the stack pointer always lie in `[0, 2^16)`:
/// every arithmetic step on them wraps modulo 2^16.
pub proof fn lemma_word_registers_bounded(s: State)
    ensures
        0 <= s.pc < 0x10000,
        0 <= s.sp < 0x10000,
{
}

/// 16-bit addition wrapping modulo 2^16.
pub open spec fn spec_add16(x: u16, y: u16) -> u16 {
    if x + y > 0xFFFF {
        (x + y - 0x10000) as u16
    } else {
        (x + y) as u16
    }
}

/// 16-bit subtraction wrapping modulo 2^16.
pub open spec fn spec_sub16(x: u16, y: u16) -> u16 {
    if x - y < 0 {
        (x - y + 0x10000) as u16
    } else {
        (x - y) as u16
    }
}

/// 8-bit addition wrapping modulo 2^8.
pub open spec fn spec_add8(x: u8, y: u8) -> u8 {
    if x + y > 0xFF {
        (x + y - 0x100) as u8
    } else {
        (x + y) as u8
    }
}

/// 8-bit subtraction wrapping modulo 2^8.
pub open spec fn spec_sub8(x: u8, y: u8) -> u8 {
    if x - y < 0 {
        (x - y + 0x100) as u8
    } else {
        (x - y) as u8
    }
}

/// The flag state after `update_flags_for(v)`: parity, zero and sign follow
/// `v`, the auxiliary carry is cleared, the carry flag and everything else
/// keep their values.
pub open spec fn spec_update_flags_for(s: State, v: u8) -> State {
    State { p: spec_parity_even(v), z: v == 0, m: v >= 128, a: false, ..s }
}

/// The flag state read back from a packed PSW byte: carry from bit 0,
/// parity from bit 2, auxiliary carry from bit 4, zero from bit 6 and sign
/// from bit 7.
pub open spec fn spec_extract_flags(s: State, bits: u8) -> State {
    State {
        c: bits % 2 == 1,
        p: bits / 4 % 2 == 1,
        a: bits / 16 % 2 == 1,
        z: bits / 64 % 2 == 1,
        m: bits / 128 == 1,
        ..s
    }
}

/// The program status word: the accumulator in the low byte and the packed
/// flag byte in the high byte.
pub open spec fn spec_status(s: State) -> u16 {
    (s.reg_a + 256 * spec_flags(s)) as u16
}

impl State {
    /// Whether the processor is in a stopped state (not executing operations
    /// from the program counter).  It returns to an active state when it
    /// receives an interrupt.
    pub fn is_stopped(&self) -> (r: bool)
        ensures
            r == !self.active,
    {
        !self.active
    }

    /// Whether the processor is accepting interrupts.  The latch is cleared
    /// automatically when an interrupt is accepted, cleared by `DI` and set
    /// by `EI`.
    pub fn is_interrupt_ready(&self) -> (r: bool)
        ensures
            r == self.interrupts,
    {
        self.interrupts
    }

    /// Sets the five condition flags from a packed PSW byte.
    pub fn extract_flags(&mut self, bits: u8)
        ensures
            *final(self) == spec_extract_flags(*old(self), bits),
    {
        self.c = bits % 2 == 1;
        self.p = bits / 4 % 2 == 1;
        self.a = bits / 16 % 2 == 1;
        self.z = bits / 64 % 2 == 1;
        self.m = bits / 128 == 1;
    }

    /// Sets parity, zero and sign from `value` and clears the auxiliary
    /// carry; the carry flag is left for the caller to derive from the ALU.
    pub fn update_flags_for(&mut self, value: u8)
        ensures
            *final(self) == spec_update_flags_for(*old(self), value),
    {
        let parity: u8 = value % 2 + value / 2 % 2 + value / 4 % 2 + value / 8 % 2 + value / 16 % 2
            + value / 32 % 2 + value / 64 % 2 + value / 128;
        self.p = parity % 2 == 0;
        self.z = value == 0;
        self.m = value >= 128;
        self.a = false;
    }

    /// Sets parity, zero and sign from the accumulator and clears the
    /// auxiliary carry.
    pub fn update_flags(&mut self)
        ensures
            *final(self) == spec_update_flags_for(*old(self), old(self).reg_a),
    {
        let value = self.reg_a;
        self.update_flags_for(value);
    }

    /// The program status word: accumulator joined with the packed flags.
    pub fn status(&self) -> (r: u16)
        ensures
            r == spec_status(*self),
    {
        self.reg_a as u16 + 256 * (self.flags() as u16)
    }

    /// Predecrements the stack pointer by two (wrapping) and returns the new
    /// stack pointer.
    pub fn push(&mut self) -> (r: u16)
        ensures
            final(self).sp == spec_sub16(old(self).sp, 2),
            r == final(self).sp,
            *final(self) == (State { sp: final(self).sp, ..*old(self) }),
    {
        self.sp = self.sp.wrapping_sub(2);
        self.sp
    }

    /// Returns the current stack pointer and postincrements it by two
    /// (wrapping).
    pub fn pop(&mut self) -> (r: u16)
        ensures
            final(self).sp == spec_add16(old(self).sp, 2),
            r == old(self).sp,
            *final(self) == (State { sp: final(self).sp, ..*old(self) }),
    {
        let address = self.sp;
        self.sp = self.sp.wrapping_add(2);
        address
    }
}

} // verus!
