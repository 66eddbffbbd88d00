//! Accumulator arithmetic and the precise flag derivations of the 8080:
//! add with optional carry-in, subtract by two's-complement add, the
//! logical operations, decimal adjust and the four rotate variants.

use vstd::prelude::*;
use crate::state::State;
use crate::state::spec_add8;
use crate::state::spec_parity_even;
use crate::state::spec_sub8;
use crate::state::spec_update_flags_for;

verus! {

/// The auxiliary carry of an eight-bit addition: the carry out of bit 3
/// into bit 4.
pub open spec fn spec_add_aux(a: u8, v: u8) -> bool {
    a % 16 + v % 16 >= 16
}

/// The auxiliary carry the 8080 reports for a subtraction performed as a
/// two's-complement add: the carry out of bit 3 of `a + (256 - by)`.
pub open spec fn spec_sub_aux(a: u8, by: u8) -> bool {
    by % 16 != 0 && a % 16 >= by % 16
}

/// The state after an add into the accumulator: `value` plus the optional
/// carry-in is added (wrapping), the carry flag takes the eight-bit carry
/// out, parity, zero and sign follow the result and the auxiliary carry is
/// the carry out of bit 3.
pub open spec fn spec_add_to(s: State, value: u8, carry: bool) -> State {
    let cin: u8 = if s.c && carry {
        1u8
    } else {
        0u8
    };
    let v = spec_add8(value, cin);
    let result = spec_add8(s.reg_a, v);
    State {
        c: s.reg_a + v > 255,
        a: spec_add_aux(s.reg_a, v),
        ..spec_update_flags_for(State { reg_a: result, ..s }, result)
    }
}

/// The flag state of a subtraction of `by` from `a` (CMP discards the
/// result; SUB also stores it): the carry flag is the borrow, and the
/// auxiliary carry follows the two's-complement add.
pub open spec fn spec_compare_with(s: State, by: u8) -> State {
    let result = spec_sub8(s.reg_a, by);
    State {
        c: by != 0 && s.reg_a < by,
        a: spec_sub_aux(s.reg_a, by),
        ..spec_update_flags_for(s, result)
    }
}

/// The state after a subtract from the accumulator: the subtrahend plus the
/// optional borrow-in, flags as in [`spec_compare_with`], the difference
/// stored in the accumulator.
pub open spec fn spec_subtract_by(s: State, value: u8, carry: bool) -> State {
    let cin: u8 = if s.c && carry {
        1u8
    } else {
        0u8
    };
    let by = spec_add8(value, cin);
    let result = spec_sub8(s.reg_a, by);
    State { reg_a: result, ..spec_compare_with(s, by) }
}

/// The state after ANA/ANI: bitwise and into the accumulator, carry and
/// auxiliary carry cleared, parity, zero and sign from the result.
pub open spec fn spec_and_with(s: State, value: u8) -> State {
    let result = s.reg_a & value;
    State { c: false, ..spec_update_flags_for(State { reg_a: result, ..s }, result) }
}

/// The state after ORA/ORI: bitwise or, carry and auxiliary carry cleared.
pub open spec fn spec_or_with(s: State, value: u8) -> State {
    let result = s.reg_a | value;
    State { c: false, ..spec_update_flags_for(State { reg_a: result, ..s }, result) }
}

/// The state after XRA/XRI: bitwise exclusive or, carry and auxiliary
/// carry cleared.
pub open spec fn spec_xor_with(s: State, value: u8) -> State {
    let result = s.reg_a ^ value;
    State { c: false, ..spec_update_flags_for(State { reg_a: result, ..s }, result) }
}

/// The state after DAA: six is added if the low nibble exceeds nine (or on
/// a pending auxiliary carry), then 0x60 if the high nibble exceeds nine
/// (or on a pending carry); each correction latches its flag only when the
/// nibble itself demanded it.
pub open spec fn spec_decimal_adjust(s: State) -> State {
    let (a1, aux): (u8, bool) = if s.reg_a % 16 > 9 {
        (spec_add8(s.reg_a, 6), true)
    } else if s.a {
        (spec_add8(s.reg_a, 6), false)
    } else {
        (s.reg_a, false)
    };
    let (a2, carry): (u8, bool) = if a1 / 16 > 9 {
        (spec_add8(a1, 0x60), true)
    } else if s.c {
        (spec_add8(a1, 0x60), false)
    } else {
        (a1, false)
    };
    State { c: carry, a: aux, ..spec_update_flags_for(State { reg_a: a2, ..s }, a2) }
}

/// The state after RLC: the accumulator rotated left by one, the carry
/// flag taking the bit rotated out of bit 7; no other flag moves.
pub open spec fn spec_rotate_left_carrying(s: State) -> State {
    State { reg_a: (s.reg_a % 128 * 2 + s.reg_a / 128) as u8, c: s.reg_a / 128 == 1, ..s }
}

/// The state after RRC: the accumulator rotated right by one, the carry
/// flag taking the bit rotated out of bit 0; no other flag moves.
pub open spec fn spec_rotate_right_carrying(s: State) -> State {
    State { reg_a: (s.reg_a / 2 + s.reg_a % 2 * 128) as u8, c: s.reg_a % 2 == 1, ..s }
}

/// The state after RAL: a nine-bit rotate left through the carry flag.
pub open spec fn spec_rotate_accumulator_left(s: State) -> State {
    let cin: u8 = if s.c {
        1u8
    } else {
        0u8
    };
    State { reg_a: (s.reg_a % 128 * 2 + cin) as u8, c: s.reg_a / 128 == 1, ..s }
}

/// The state after RAR: a nine-bit rotate right through the carry flag.
pub open spec fn spec_rotate_accumulator_right(s: State) -> State {
    let cin: u8 = if s.c {
        128u8
    } else {
        0u8
    };
    State { reg_a: (s.reg_a / 2 + cin) as u8, c: s.reg_a % 2 == 1, ..s }
}

/// The flag state after INR stepped a byte up from `pre`: parity, zero and
/// sign follow `pre + 1`, the auxiliary carry is the carry out of bit 3,
/// and the carry flag does not move.
pub open spec fn spec_increment_flags(s: State, pre: u8) -> State {
    State { a: pre % 16 == 15, ..spec_update_flags_for(s, spec_add8(pre, 1)) }
}

/// The flag state after DCR stepped a byte down from `pre`: parity, zero
/// and sign follow `pre - 1`, the auxiliary carry is the borrow out of
/// bit 4, and the carry flag does not move.
pub open spec fn spec_decrement_flags(s: State, pre: u8) -> State {
    State { a: pre % 16 == 0, ..spec_update_flags_for(s, spec_sub8(pre, 1)) }
}

impl State {
    /// ADD/ADC/ADI/ACI: adds `value`, plus the carry flag when `carry`
    /// asks for it, into the accumulator, deriving all five flags.
    #[verifier::rlimit(100)]
    #[verifier::spinoff_prover]
    pub fn add_to(&mut self, value: u8, carry: bool)
        ensures
            *final(self) == spec_add_to(*old(self), value, carry),
    {
        let cin: u8 = if self.c && carry {
            1
        } else {
            0
        };
        let v = value.wrapping_add(cin);
        let carry_out = self.reg_a as u16 + v as u16 > 255;
        let aux = self.reg_a % 16 + v % 16 >= 16;
        let result = self.reg_a.wrapping_add(v);
        self.reg_a = result;
        self.update_flags_for(result);
        self.c = carry_out;
        self.a = aux;
    }

    /// CMP/CPI: derives the flags of a subtraction of `by` from the
    /// accumulator and discards the difference.
    pub fn compare_with(&mut self, by: u8)
        ensures
            *final(self) == spec_compare_with(*old(self), by),
    {
        let result = self.reg_a.wrapping_sub(by);
        let carry = by != 0 && self.reg_a < by;
        let aux = by % 16 != 0 && self.reg_a % 16 >= by % 16;
        self.update_flags_for(result);
        self.c = carry;
        self.a = aux;
    }

    /// SUB/SBB/SUI/SBI: subtracts `value`, plus the carry flag when
    /// `carry` asks for it, from the accumulator, deriving all five flags.
    pub fn subtract_by(&mut self, value: u8, carry: bool)
        ensures
            *final(self) == spec_subtract_by(*old(self), value, carry),
    {
        let cin: u8 = if self.c && carry {
            1
        } else {
            0
        };
        let by = value.wrapping_add(cin);
        let result = self.reg_a.wrapping_sub(by);
        self.compare_with(by);
        self.reg_a = result;
    }

    /// ANA/ANI: bitwise and into the accumulator; carry and auxiliary
    /// carry are cleared.
    pub fn and_with(&mut self, value: u8)
        ensures
            *final(self) == spec_and_with(*old(self), value),
    {
        let result = self.reg_a & value;
        self.reg_a = result;
        self.update_flags_for(result);
        self.c = false;
    }

    /// ORA/ORI: bitwise or into the accumulator; carry and auxiliary carry
    /// are cleared.
    pub fn or_with(&mut self, value: u8)
        ensures
            *final(self) == spec_or_with(*old(self), value),
    {
        let result = self.reg_a | value;
        self.reg_a = result;
        self.update_flags_for(result);
        self.c = false;
    }

    /// XRA/XRI: bitwise exclusive or into the accumulator; carry and
    /// auxiliary carry are cleared.
    pub fn xor_with(&mut self, value: u8)
        ensures
            *final(self) == spec_xor_with(*old(self), value),
    {
        let result = self.reg_a ^ value;
        self.reg_a = result;
        self.update_flags_for(result);
        self.c = false;
    }

    /// DAA: decimal-adjusts the accumulator nibble by nibble.
    pub fn decimal_adjust(&mut self)
        ensures
            *final(self) == spec_decimal_adjust(*old(self)),
    {
        let aux = if self.reg_a % 16 > 9 {
            self.reg_a = self.reg_a.wrapping_add(6);
            true
        } else {
            if self.a {
                self.reg_a = self.reg_a.wrapping_add(6);
            }
            false
        };
        let carry = if self.reg_a / 16 > 9 {
            self.reg_a = self.reg_a.wrapping_add(0x60);
            true
        } else {
            if self.c {
                self.reg_a = self.reg_a.wrapping_add(0x60);
            }
            false
        };
        let result = self.reg_a;
        self.update_flags_for(result);
        self.c = carry;
        self.a = aux;
    }

    /// RLC: rotates the accumulator left; the carry flag takes bit 7.
    pub fn rotate_left_carrying(&mut self)
        ensures
            *final(self) == spec_rotate_left_carrying(*old(self)),
    {
        let a = self.reg_a;
        self.c = a / 128 == 1;
        self.reg_a = a % 128 * 2 + a / 128;
    }

    /// RRC: rotates the accumulator right; the carry flag takes bit 0.
    pub fn rotate_right_carrying(&mut self)
        ensures
            *final(self) == spec_rotate_right_carrying(*old(self)),
    {
        let a = self.reg_a;
        self.c = a % 2 == 1;
        self.reg_a = a / 2 + a % 2 * 128;
    }

    /// RAL: nine-bit rotate left through the carry flag.
    pub fn rotate_accumulator_left(&mut self)
        ensures
            *final(self) == spec_rotate_accumulator_left(*old(self)),
    {
        let a = self.reg_a;
        let cin: u8 = if self.c {
            1
        } else {
            0
        };
        self.c = a / 128 == 1;
        self.reg_a = a % 128 * 2 + cin;
    }

    /// RAR: nine-bit rotate right through the carry flag.
    pub fn rotate_accumulator_right(&mut self)
        ensures
            *final(self) == spec_rotate_accumulator_right(*old(self)),
    {
        let a = self.reg_a;
        let cin: u8 = if self.c {
            128
        } else {
            0
        };
        self.c = a % 2 == 1;
        self.reg_a = a / 2 + cin;
    }

    /// INR flag update for a byte that was incremented from `pre`; the
    /// carry flag does not move.
    pub fn apply_increment_flags(&mut self, pre: u8)
        ensures
            *final(self) == spec_increment_flags(*old(self), pre),
    {
        let aux = pre % 16 == 15;
        let result = pre.wrapping_add(1);
        let carry = self.c;
        self.update_flags_for(result);
        self.c = carry;
        self.a = aux;
    }

    /// DCR flag update for a byte that was decremented from `pre`; the
    /// carry flag does not move.
    pub fn apply_decrement_flags(&mut self, pre: u8)
        ensures
            *final(self) == spec_decrement_flags(*old(self), pre),
    {
        let aux = pre % 16 == 0;
        let result = pre.wrapping_sub(1);
        let carry = self.c;
        self.update_flags_for(result);
        self.c = carry;
        self.a = aux;
    }
}

/// After any operation that derives its flags from the accumulator — add,
/// subtract, and, or, exclusive or, decimal adjust — the parity flag
/// reflects even parity of the accumulator's eight bits.
pub proof fn lemma_parity_tracks_accumulator(s: State, v: u8, carry: bool)
    ensures
        spec_add_to(s, v, carry).p == spec_parity_even(spec_add_to(s, v, carry).reg_a),
        spec_subtract_by(s, v, carry).p == spec_parity_even(spec_subtract_by(s, v, carry).reg_a),
        spec_and_with(s, v).p == spec_parity_even(spec_and_with(s, v).reg_a),
        spec_or_with(s, v).p == spec_parity_even(spec_or_with(s, v).reg_a),
        spec_xor_with(s, v).p == spec_parity_even(spec_xor_with(s, v).reg_a),
        spec_decimal_adjust(s).p == spec_parity_even(spec_decimal_adjust(s).reg_a),
{
}

} // verus!
