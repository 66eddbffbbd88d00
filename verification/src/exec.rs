//! Per-instruction semantics: a mathematical step relation between the
//! processor state before and after an instruction, the architectural cycle
//! counts, and the execution engine that dispatches an [`Op`] against a
//! state and a bus.

use vstd::prelude::*;
use crate::access::Byte;
use crate::access::Double;
use crate::access::Internal;
use crate::access::Word;
use crate::access::spec_pair;
use crate::access::spec_resolve;
use crate::access::spec_with_pair;
use crate::access::spec_with_word;
use crate::access::spec_word;
use crate::alu::spec_add_to;
use crate::alu::spec_and_with;
use crate::alu::spec_compare_with;
use crate::alu::spec_decimal_adjust;
use crate::alu::spec_decrement_flags;
use crate::alu::spec_increment_flags;
use crate::alu::spec_or_with;
use crate::alu::spec_rotate_accumulator_left;
use crate::alu::spec_rotate_accumulator_right;
use crate::alu::spec_rotate_left_carrying;
use crate::alu::spec_rotate_right_carrying;
use crate::alu::spec_subtract_by;
use crate::alu::spec_xor_with;
use crate::machine::Harness;
use vstd::pervasive::unreached;
use crate::opcode::Op;
use crate::opcode::spec_approves;
use crate::state::Register;
use crate::state::State;
use crate::state::spec_add16;
use crate::state::spec_add8;
use crate::state::spec_extract_flags;
use crate::state::spec_register;
use crate::state::spec_sub16;
use crate::state::spec_sub8;
use crate::state::spec_with_register;

verus! {

/// Whether the execution engine accepts an `Op` value: a move whose source
/// and destination are both memory has no execution (its encoding slot is
/// `HLT`), and a push or pop can only target a 16-bit register or the
/// program status word.
pub open spec fn spec_executable(op: Op) -> bool {
    match op {
        Op::Move { to, from } => !((to is Indirect || to is RAM) && (from is Indirect || from
            is RAM)),
        Op::Push(w) => w is OnBoard || w is ProgramStatus,
        Op::Pop(w) => w is OnBoard || w is ProgramStatus,
        _ => true,
    }
}

/// How one instruction relates the processor state before it to the state
/// after it.  Values that arrive over the bus — memory bytes, popped words,
/// port input — are existentially quantified: the relation holds whatever
/// the bus returned.  Bus writes are the bus's concern and do not appear.
#[verifier::opaque]
pub open spec fn spec_step(op: Op, pre: State, post: State) -> bool {
    match op {
        Op::NOP(..) => post == pre,
        Op::Add { from, carry } => match spec_resolve(pre, from) {
            Byte::Single(r) => post == spec_add_to(pre, spec_register(pre, r), carry),
            _ => exists|v: u8| post == spec_add_to(pre, v, carry),
        },
        Op::AddTo { value, carry } => post == spec_add_to(pre, value, carry),
        Op::And { from } => match spec_resolve(pre, from) {
            Byte::Single(r) => post == spec_and_with(pre, spec_register(pre, r)),
            _ => exists|v: u8| post == spec_and_with(pre, v),
        },
        Op::AndWith { value } => post == spec_and_with(pre, value),
        Op::Call { sub } => post == (State { sp: spec_sub16(pre.sp, 2), pc: sub, ..pre }),
        Op::CallIf(test, sub) => post == if spec_approves(pre, test) {
            State { sp: spec_sub16(pre.sp, 2), pc: sub, ..pre }
        } else {
            pre
        },
        Op::CarryFlag(set) => post == (State { c: set || !pre.c, ..pre }),
        Op::Compare { from } => match spec_resolve(pre, from) {
            Byte::Single(r) => post == spec_compare_with(pre, spec_register(pre, r)),
            _ => exists|v: u8| post == spec_compare_with(pre, v),
        },
        Op::CompareWith { value } => post == spec_compare_with(pre, value),
        Op::ComplementAccumulator => post == (State { reg_a: (255 - pre.reg_a) as u8, ..pre }),
        Op::DecimalAddAdjust => post == spec_decimal_adjust(pre),
        Op::DecrementByte { register } => match spec_resolve(pre, register) {
            Byte::Single(r) => post == spec_decrement_flags(
                spec_with_register(pre, r, spec_sub8(spec_register(pre, r), 1)),
                spec_register(pre, r),
            ),
            _ => exists|v: u8| post == spec_decrement_flags(pre, v),
        },
        Op::DecrementWord { register } => post == spec_with_word(
            pre,
            register,
            spec_sub16(spec_word(pre, register), 1),
        ),
        Op::Interrupts(active) => post == (State { interrupts: active, ..pre }),
        Op::DoubleAdd { register } => post == ({
            let sum = spec_pair(pre, Double::HL) + spec_word(pre, register);
            State {
                c: sum > 0xFFFF,
                ..spec_with_pair(pre, Double::HL, (sum % 0x10000) as u16)
            }
        }),
        Op::ExchangeDoubleWithHilo => post == (State {
            reg_d: pre.reg_h,
            reg_e: pre.reg_l,
            reg_h: pre.reg_d,
            reg_l: pre.reg_e,
            ..pre
        }),
        Op::ExchangeTopWithHilo => exists|w: u16| post == spec_with_pair(pre, Double::HL, w),
        Op::ExclusiveOr { from } => match spec_resolve(pre, from) {
            Byte::Single(r) => post == spec_xor_with(pre, spec_register(pre, r)),
            _ => exists|v: u8| post == spec_xor_with(pre, v),
        },
        Op::ExclusiveOrWith { value } => post == spec_xor_with(pre, value),
        Op::Halt => post == (State { active: false, ..pre }),
        Op::In(..) => exists|v: u8| post == spec_with_register(pre, Register::A, v),
        Op::IncrementByte { register } => match spec_resolve(pre, register) {
            Byte::Single(r) => post == spec_increment_flags(
                spec_with_register(pre, r, spec_add8(spec_register(pre, r), 1)),
                spec_register(pre, r),
            ),
            _ => exists|v: u8| post == spec_increment_flags(pre, v),
        },
        Op::IncrementWord { register } => post == spec_with_word(
            pre,
            register,
            spec_add16(spec_word(pre, register), 1),
        ),
        Op::Jump { to } => post == (State { pc: to, ..pre }),
        Op::JumpIf(test, addr) => post == if spec_approves(pre, test) {
            State { pc: addr, ..pre }
        } else {
            pre
        },
        Op::LoadAccumulator { .. } => exists|v: u8| post == spec_with_register(pre, Register::A, v),
        Op::LoadAccumulatorIndirect { .. } => exists|v: u8| post == spec_with_register(pre, Register::A, v),
        Op::LoadExtendedWith { to, value } => post == spec_with_word(pre, to, value),
        Op::LoadHilo { .. } => exists|w: u16| post == spec_with_pair(pre, Double::HL, w),
        Op::Move { to, from } => match (spec_resolve(pre, to), spec_resolve(pre, from)) {
            (Byte::Single(t), Byte::Single(f)) => post == spec_with_register(
                pre,
                t,
                spec_register(pre, f),
            ),
            (Byte::RAM(..), Byte::Single(..)) => post == pre,
            (Byte::Single(t), Byte::RAM(..)) => exists|v: u8|
                post == spec_with_register(pre, t, v),
            _ => false,
        },
        Op::MoveData { value, to } => match spec_resolve(pre, to) {
            Byte::Single(t) => post == spec_with_register(pre, t, value),
            _ => post == pre,
        },
        Op::Or { from } => match spec_resolve(pre, from) {
            Byte::Single(r) => post == spec_or_with(pre, spec_register(pre, r)),
            _ => exists|v: u8| post == spec_or_with(pre, v),
        },
        Op::OrWith { value } => post == spec_or_with(pre, value),
        Op::Out(..) => post == pre,
        Op::Pop(target) => match target {
            Word::OnBoard(i) => exists|w: u16|
                post == (#[trigger] spec_with_word(
                    State { sp: spec_add16(pre.sp, 2), ..pre },
                    i,
                    w,
                )),
            Word::ProgramStatus => exists|w: u16|
                post == (#[trigger] spec_extract_flags(
                    State { sp: spec_add16(pre.sp, 2), reg_a: (w % 256) as u8, ..pre },
                    (w / 256) as u8,
                )),
            _ => false,
        },
        Op::ProgramCounterFromHilo => post == (State { pc: spec_pair(pre, Double::HL), ..pre }),
        Op::Push(source) => match source {
            Word::OnBoard(..) => post == (State { sp: spec_sub16(pre.sp, 2), ..pre }),
            Word::ProgramStatus => post == (State { sp: spec_sub16(pre.sp, 2), ..pre }),
            _ => false,
        },
        Op::Reset { vector } => post == (State {
            sp: spec_sub16(pre.sp, 2),
            pc: (8 * vector) as u16,
            ..pre
        }),
        Op::Return => exists|w: u16|
            post == (State { sp: spec_add16(pre.sp, 2), pc: w, ..pre }),
        Op::ReturnIf(test) => if spec_approves(pre, test) {
            exists|w: u16| post == (State { sp: spec_add16(pre.sp, 2), pc: w, ..pre })
        } else {
            post == pre
        },
        Op::RotateLeftCarrying => post == spec_rotate_left_carrying(pre),
        Op::RotateRightCarrying => post == spec_rotate_right_carrying(pre),
        Op::RotateAccumulatorLeft => post == spec_rotate_accumulator_left(pre),
        Op::RotateAccumulatorRight => post == spec_rotate_accumulator_right(pre),
        Op::StackPointerFromHilo => post == (State { sp: spec_pair(pre, Double::HL), ..pre }),
        Op::StoreAccumulator { .. } => post == pre,
        Op::StoreAccumulatorIndirect { .. } => post == pre,
        Op::StoreHilo { .. } => post == pre,
        Op::Subtract { from, carry } => match spec_resolve(pre, from) {
            Byte::Single(r) => post == spec_subtract_by(pre, spec_register(pre, r), carry),
            _ => exists|v: u8| post == spec_subtract_by(pre, v, carry),
        },
        Op::SubtractBy { value, carry } => post == spec_subtract_by(pre, value, carry),
    }
}

/// The architectural cycle count of an instruction: fixed per form, except
/// that a memory operand costs more than a register operand and that a
/// conditional call or return costs more when taken.
#[verifier::opaque]
pub open spec fn spec_cycles(op: Op, pre: State) -> u8 {
    match op {
        Op::NOP(n) => n,
        Op::Add { from, .. } => if spec_resolve(pre, from) is Single {
            4u8
        } else {
            7u8
        },
        Op::AddTo { .. } => 7u8,
        Op::And { from } => if spec_resolve(pre, from) is Single {
            4u8
        } else {
            7u8
        },
        Op::AndWith { .. } => 7u8,
        Op::Call { .. } => 17u8,
        Op::CallIf(test, _) => if spec_approves(pre, test) {
            17u8
        } else {
            11u8
        },
        Op::CarryFlag(..) => 4u8,
        Op::Compare { from } => if spec_resolve(pre, from) is Single {
            4u8
        } else {
            7u8
        },
        Op::CompareWith { .. } => 7u8,
        Op::ComplementAccumulator => 4u8,
        Op::DecimalAddAdjust => 4u8,
        Op::DecrementByte { register } => if spec_resolve(pre, register) is Single {
            5u8
        } else {
            10u8
        },
        Op::DecrementWord { .. } => 5u8,
        Op::Interrupts(..) => 4u8,
        Op::DoubleAdd { .. } => 10u8,
        Op::ExchangeDoubleWithHilo => 4u8,
        Op::ExchangeTopWithHilo => 18u8,
        Op::ExclusiveOr { from } => if spec_resolve(pre, from) is Single {
            4u8
        } else {
            7u8
        },
        Op::ExclusiveOrWith { .. } => 7u8,
        Op::Halt => 7u8,
        Op::In(..) => 10u8,
        Op::IncrementByte { register } => if spec_resolve(pre, register) is Single {
            5u8
        } else {
            10u8
        },
        Op::IncrementWord { .. } => 5u8,
        Op::Jump { .. } => 10u8,
        Op::JumpIf(..) => 10u8,
        Op::LoadAccumulator { .. } => 13u8,
        Op::LoadAccumulatorIndirect { .. } => 7u8,
        Op::LoadExtendedWith { .. } => 10u8,
        Op::LoadHilo { .. } => 16u8,
        Op::Move { to, from } => if spec_resolve(pre, to) is Single && spec_resolve(pre, from)
            is Single {
            5u8
        } else {
            7u8
        },
        Op::MoveData { to, .. } => if spec_resolve(pre, to) is Single {
            7u8
        } else {
            10u8
        },
        Op::Or { from } => if spec_resolve(pre, from) is Single {
            4u8
        } else {
            7u8
        },
        Op::OrWith { .. } => 7u8,
        Op::Out(..) => 10u8,
        Op::Pop(..) => 10u8,
        Op::ProgramCounterFromHilo => 5u8,
        Op::Push(..) => 11u8,
        Op::Reset { .. } => 11u8,
        Op::Return => 10u8,
        Op::ReturnIf(test) => if spec_approves(pre, test) {
            11u8
        } else {
            5u8
        },
        Op::RotateLeftCarrying => 4u8,
        Op::RotateRightCarrying => 4u8,
        Op::RotateAccumulatorLeft => 4u8,
        Op::RotateAccumulatorRight => 4u8,
        Op::StackPointerFromHilo => 5u8,
        Op::StoreAccumulator { .. } => 13u8,
        Op::StoreAccumulatorIndirect { .. } => 7u8,
        Op::StoreHilo { .. } => 16u8,
        Op::Subtract { from, .. } => if spec_resolve(pre, from) is Single {
            4u8
        } else {
            7u8
        },
        Op::SubtractBy { .. } => 7u8,
    }
}

/// The accumulator-arithmetic, logic, rotate and byte increment forms.
#[verifier::rlimit(100)]
#[verifier::spinoff_prover]
fn exec_arithmetic<H: Harness>(op: Op, chip: &mut State, bus: &mut H) -> (r: u8)
    requires
        spec_executable(op),
        ({
            ||| op matches Op::Add { .. }
            ||| op matches Op::AddTo { .. }
            ||| op matches Op::And { .. }
            ||| op matches Op::AndWith { .. }
            ||| op matches Op::Compare { .. }
            ||| op matches Op::CompareWith { .. }
            ||| op matches Op::ComplementAccumulator
            ||| op matches Op::DecimalAddAdjust
            ||| op matches Op::CarryFlag(..)
            ||| op matches Op::ExclusiveOr { .. }
            ||| op matches Op::ExclusiveOrWith { .. }
            ||| op matches Op::Or { .. }
            ||| op matches Op::OrWith { .. }
            ||| op matches Op::Subtract { .. }
            ||| op matches Op::SubtractBy { .. }
            ||| op matches Op::RotateLeftCarrying
            ||| op matches Op::RotateRightCarrying
            ||| op matches Op::RotateAccumulatorLeft
            ||| op matches Op::RotateAccumulatorRight
            ||| op matches Op::IncrementByte { .. }
            ||| op matches Op::DecrementByte { .. }
        }),
    ensures
        spec_step(op, *old(chip), *final(chip)),
        r == spec_cycles(op, *old(chip)),
{
    proof {
        reveal(spec_step);
        reveal(spec_cycles);
    }
    match op {
        Op::Add { from, carry } => match chip.resolve(from) {
            Byte::Single(r) => {
                let v = chip.get_register(r);
                chip.add_to(v, carry);
                4
            },
            Byte::RAM(address) => {
                let v = bus.read(address);
                chip.add_to(v, carry);
                7
            },
            Byte::Indirect => unreached(),
        },
        Op::AddTo { value, carry } => {
            chip.add_to(value, carry);
            7
        },
        Op::And { from } => match chip.resolve(from) {
            Byte::Single(r) => {
                let v = chip.get_register(r);
                chip.and_with(v);
                4
            },
            Byte::RAM(address) => {
                let v = bus.read(address);
                chip.and_with(v);
                7
            },
            Byte::Indirect => unreached(),
        },
        Op::AndWith { value } => {
            chip.and_with(value);
            7
        },
        Op::Compare { from } => match chip.resolve(from) {
            Byte::Single(r) => {
                let v = chip.get_register(r);
                chip.compare_with(v);
                4
            },
            Byte::RAM(address) => {
                let v = bus.read(address);
                chip.compare_with(v);
                7
            },
            Byte::Indirect => unreached(),
        },
        Op::CompareWith { value } => {
            chip.compare_with(value);
            7
        },
        Op::ComplementAccumulator => {
            chip.reg_a = 255 - chip.reg_a;
            4
        },
        Op::DecimalAddAdjust => {
            chip.decimal_adjust();
            4
        },
        Op::CarryFlag(set) => {
            chip.c = set || !chip.c;
            4
        },
        Op::ExclusiveOr { from } => match chip.resolve(from) {
            Byte::Single(r) => {
                let v = chip.get_register(r);
                chip.xor_with(v);
                4
            },
            Byte::RAM(address) => {
                let v = bus.read(address);
                chip.xor_with(v);
                7
            },
            Byte::Indirect => unreached(),
        },
        Op::ExclusiveOrWith { value } => {
            chip.xor_with(value);
            7
        },
        Op::Or { from } => match chip.resolve(from) {
            Byte::Single(r) => {
                let v = chip.get_register(r);
                chip.or_with(v);
                4
            },
            Byte::RAM(address) => {
                let v = bus.read(address);
                chip.or_with(v);
                7
            },
            Byte::Indirect => unreached(),
        },
        Op::OrWith { value } => {
            chip.or_with(value);
            7
        },
        Op::Subtract { from, carry } => match chip.resolve(from) {
            Byte::Single(r) => {
                let v = chip.get_register(r);
                chip.subtract_by(v, carry);
                4
            },
            Byte::RAM(address) => {
                let v = bus.read(address);
                chip.subtract_by(v, carry);
                7
            },
            Byte::Indirect => unreached(),
        },
        Op::SubtractBy { value, carry } => {
            chip.subtract_by(value, carry);
            7
        },
        Op::RotateLeftCarrying => {
            chip.rotate_left_carrying();
            4
        },
        Op::RotateRightCarrying => {
            chip.rotate_right_carrying();
            4
        },
        Op::RotateAccumulatorLeft => {
            chip.rotate_accumulator_left();
            4
        },
        Op::RotateAccumulatorRight => {
            chip.rotate_accumulator_right();
            4
        },
        Op::IncrementByte { register } => match chip.resolve(register) {
            Byte::Single(r) => {
                let pre = chip.get_register(r);
                chip.set_register(r, pre.wrapping_add(1));
                chip.apply_increment_flags(pre);
                5
            },
            Byte::RAM(address) => {
                let pre = bus.read(address);
                bus.write(address, pre.wrapping_add(1));
                chip.apply_increment_flags(pre);
                10
            },
            Byte::Indirect => unreached(),
        },
        Op::DecrementByte { register } => match chip.resolve(register) {
            Byte::Single(r) => {
                let pre = chip.get_register(r);
                chip.set_register(r, pre.wrapping_sub(1));
                chip.apply_decrement_flags(pre);
                5
            },
            Byte::RAM(address) => {
                let pre = bus.read(address);
                bus.write(address, pre.wrapping_sub(1));
                chip.apply_decrement_flags(pre);
                10
            },
            Byte::Indirect => unreached(),
        },
        _ => unreached(),
    }
}

/// The data-transfer, word-register, stack and port forms.
#[verifier::rlimit(100)]
#[verifier::spinoff_prover]
fn exec_transfer<H: Harness>(op: Op, chip: &mut State, bus: &mut H) -> (r: u8)
    requires
        spec_executable(op),
        ({
            ||| op matches Op::IncrementWord { .. }
            ||| op matches Op::DecrementWord { .. }
            ||| op matches Op::DoubleAdd { .. }
            ||| op matches Op::ExchangeDoubleWithHilo
            ||| op matches Op::ExchangeTopWithHilo
            ||| op matches Op::LoadExtendedWith { .. }
            ||| op matches Op::LoadHilo { .. }
            ||| op matches Op::StoreHilo { .. }
            ||| op matches Op::ProgramCounterFromHilo
            ||| op matches Op::StackPointerFromHilo
            ||| op matches Op::Push(..)
            ||| op matches Op::Pop(..)
            ||| op matches Op::LoadAccumulator { .. }
            ||| op matches Op::LoadAccumulatorIndirect { .. }
            ||| op matches Op::StoreAccumulator { .. }
            ||| op matches Op::StoreAccumulatorIndirect { .. }
            ||| op matches Op::Move { .. }
            ||| op matches Op::MoveData { .. }
            ||| op matches Op::In(..)
            ||| op matches Op::Out(..)
        }),
    ensures
        spec_step(op, *old(chip), *final(chip)),
        r == spec_cycles(op, *old(chip)),
{
    proof {
        reveal(spec_step);
        reveal(spec_cycles);
    }
    match op {
        Op::IncrementWord { register } => {
            let w = chip.get_word(register);
            chip.set_word(register, w.wrapping_add(1));
            5
        },
        Op::DecrementWord { register } => {
            let w = chip.get_word(register);
            chip.set_word(register, w.wrapping_sub(1));
            5
        },
        Op::DoubleAdd { register } => {
            let hl = chip.get_pair(Double::HL);
            let v = chip.get_word(register);
            let sum: u32 = hl as u32 + v as u32;
            chip.set_pair(Double::HL, (sum % 65536) as u16);
            chip.c = sum > 65535;
            10
        },
        Op::ExchangeDoubleWithHilo => {
            let d = chip.reg_d;
            let e = chip.reg_e;
            chip.reg_d = chip.reg_h;
            chip.reg_e = chip.reg_l;
            chip.reg_h = d;
            chip.reg_l = e;
            4
        },
        Op::ExchangeTopWithHilo => {
            let out = chip.get_pair(Double::HL);
            let w = bus.read_word(chip.sp);
            chip.set_pair(Double::HL, w);
            bus.write_word(chip.sp, out);
            18
        },
        Op::LoadExtendedWith { to, value } => {
            chip.set_word(to, value);
            10
        },
        Op::LoadHilo { address } => {
            let w = bus.read_word(address);
            chip.set_pair(Double::HL, w);
            16
        },
        Op::StoreHilo { address } => {
            let w = chip.get_pair(Double::HL);
            bus.write_word(address, w);
            16
        },
        Op::ProgramCounterFromHilo => {
            chip.pc = chip.get_pair(Double::HL);
            5
        },
        Op::StackPointerFromHilo => {
            chip.sp = chip.get_pair(Double::HL);
            5
        },
        Op::Push(source) => {
            let value = match source {
                Word::OnBoard(i) => chip.get_word(i),
                Word::ProgramStatus => chip.status(),
                _ => unreached(),
            };
            let addr = chip.push();
            bus.write_word(addr, value);
            11
        },
        Op::Pop(target) => match target {
            Word::OnBoard(i) => {
                let addr = chip.pop();
                let w = bus.read_word(addr);
                chip.set_word(i, w);
                10
            },
            Word::ProgramStatus => {
                let addr = chip.pop();
                let w = bus.read_word(addr);
                chip.reg_a = (w % 256) as u8;
                chip.extract_flags((w / 256) as u8);
                10
            },
            _ => unreached(),
        },
        Op::LoadAccumulator { address } => {
            let v = bus.read(address);
            chip.reg_a = v;
            proof {
                assert(*chip == spec_with_register(*old(chip), Register::A, v));
            }
            13
        },
        Op::LoadAccumulatorIndirect { register } => {
            let addr = chip.get_pair(register);
            let v = bus.read(addr);
            chip.reg_a = v;
            proof {
                assert(*chip == spec_with_register(*old(chip), Register::A, v));
            }
            7
        },
        Op::StoreAccumulator { address } => {
            bus.write(address, chip.reg_a);
            13
        },
        Op::StoreAccumulatorIndirect { register } => {
            let addr = chip.get_pair(register);
            bus.write(addr, chip.reg_a);
            7
        },
        Op::Move { to, from } => {
            let to_loc = chip.resolve(to);
            let from_loc = chip.resolve(from);
            match (to_loc, from_loc) {
                (Byte::Single(t), Byte::Single(f)) => {
                    let v = chip.get_register(f);
                    chip.set_register(t, v);
                    5
                },
                (Byte::RAM(address), Byte::Single(f)) => {
                    let v = chip.get_register(f);
                    bus.write(address, v);
                    7
                },
                (Byte::Single(t), Byte::RAM(address)) => {
                    let v = bus.read(address);
                    chip.set_register(t, v);
                    7
                },
                _ => unreached(),
            }
        },
        Op::MoveData { value, to } => match chip.resolve(to) {
            Byte::Single(t) => {
                chip.set_register(t, value);
                7
            },
            Byte::RAM(address) => {
                bus.write(address, value);
                10
            },
            Byte::Indirect => unreached(),
        },
        Op::In(port) => {
            let v = bus.input(port);
            chip.reg_a = v;
            proof {
                assert(*chip == spec_with_register(*old(chip), Register::A, v));
            }
            10
        },
        Op::Out(port) => {
            bus.output(port, chip.reg_a);
            10
        },
        _ => unreached(),
    }
}

/// The control-transfer, halt, interrupt-latch and no-op forms.
#[verifier::rlimit(100)]
#[verifier::spinoff_prover]
fn exec_control<H: Harness>(op: Op, chip: &mut State, bus: &mut H) -> (r: u8)
    requires
        spec_executable(op),
        ({
            ||| op matches Op::Call { .. }
            ||| op matches Op::CallIf(..)
            ||| op matches Op::Jump { .. }
            ||| op matches Op::JumpIf(..)
            ||| op matches Op::Return
            ||| op matches Op::ReturnIf(..)
            ||| op matches Op::Reset { .. }
            ||| op matches Op::Halt
            ||| op matches Op::Interrupts(..)
            ||| op matches Op::NOP(..)
        }),
    ensures
        spec_step(op, *old(chip), *final(chip)),
        r == spec_cycles(op, *old(chip)),
{
    proof {
        reveal(spec_step);
        reveal(spec_cycles);
    }
    match op {
        Op::Call { sub } => {
            let addr = chip.push();
            bus.write_word(addr, chip.pc);
            chip.pc = sub;
            17
        },
        Op::CallIf(test, sub) => if test.approves(chip) {
            let addr = chip.push();
            bus.write_word(addr, chip.pc);
            chip.pc = sub;
            17
        } else {
            11
        },
        Op::Jump { to } => {
            chip.pc = to;
            10
        },
        Op::JumpIf(test, addr) => {
            if test.approves(chip) {
                chip.pc = addr;
            }
            10
        },
        Op::Return => {
            let addr = chip.pop();
            let w = bus.read_word(addr);
            chip.pc = w;
            10
        },
        Op::ReturnIf(test) => if test.approves(chip) {
            let addr = chip.pop();
            let w = bus.read_word(addr);
            chip.pc = w;
            11
        } else {
            5
        },
        Op::Reset { vector } => {
            let addr = chip.push();
            bus.write_word(addr, chip.pc);
            chip.pc = vector as u16 * 8;
            11
        },
        Op::Halt => {
            chip.active = false;
            7
        },
        Op::Interrupts(active) => {
            chip.interrupts = active;
            4
        },
        Op::NOP(n) => n,
        _ => unreached(),
    }
}

impl Op {
    /// Consumes this operation against a processor state and a bus: the
    /// state moves as [`spec_step`] says and the architectural cycle count
    /// comes back (`None` only for a zero-cycle no-op, which marks a
    /// machine that cannot proceed).
    pub fn execute_on<H: Harness>(self, chip: &mut State, bus: &mut H) -> (r: Option<u8>)
        requires
            spec_executable(self),
        ensures
            spec_step(self, *old(chip), *final(chip)),
            r == (if spec_cycles(self, *old(chip)) == 0 {
                None::<u8>
            } else {
                Some(spec_cycles(self, *old(chip)))
            }),
    {
        let cycles: u8 = match self {
            Op::Add { .. }
            | Op::AddTo { .. }
            | Op::And { .. }
            | Op::AndWith { .. }
            | Op::Compare { .. }
            | Op::CompareWith { .. }
            | Op::ComplementAccumulator
            | Op::DecimalAddAdjust
            | Op::CarryFlag(..)
            | Op::ExclusiveOr { .. }
            | Op::ExclusiveOrWith { .. }
            | Op::Or { .. }
            | Op::OrWith { .. }
            | Op::Subtract { .. }
            | Op::SubtractBy { .. }
            | Op::RotateLeftCarrying
            | Op::RotateRightCarrying
            | Op::RotateAccumulatorLeft
            | Op::RotateAccumulatorRight
            | Op::IncrementByte { .. }
            | Op::DecrementByte { .. } => exec_arithmetic(self, chip, bus),
            Op::IncrementWord { .. }
            | Op::DecrementWord { .. }
            | Op::DoubleAdd { .. }
            | Op::ExchangeDoubleWithHilo
            | Op::ExchangeTopWithHilo
            | Op::LoadExtendedWith { .. }
            | Op::LoadHilo { .. }
            | Op::StoreHilo { .. }
            | Op::ProgramCounterFromHilo
            | Op::StackPointerFromHilo
            | Op::Push(..)
            | Op::Pop(..)
            | Op::LoadAccumulator { .. }
            | Op::LoadAccumulatorIndirect { .. }
            | Op::StoreAccumulator { .. }
            | Op::StoreAccumulatorIndirect { .. }
            | Op::Move { .. }
            | Op::MoveData { .. }
            | Op::In(..)
            | Op::Out(..) => exec_transfer(self, chip, bus),
            Op::Call { .. }
            | Op::CallIf(..)
            | Op::Jump { .. }
            | Op::JumpIf(..)
            | Op::Return
            | Op::ReturnIf(..)
            | Op::Reset { .. }
            | Op::Halt
            | Op::Interrupts(..)
            | Op::NOP(..) => exec_control(self, chip, bus),
        };
        if cycles == 0 {
            None
        } else {
            Some(cycles)
        }
    }

    /// Whether the execution engine accepts this operation.
    ///
    /// Everything the decoder can produce it accepts: see
    /// [`lemma_decoded_ops_run`].  Only hand-built values fall outside —
    /// the memory-to-memory move, and a push or pop aimed at a direct
    /// address or at the stack itself.
    pub fn is_executable(&self) -> (r: bool)
        ensures
            r == spec_executable(*self),
    {
        match *self {
            Op::Move { to, from } => {
                let to_mem = match to {
                    Byte::Single(..) => false,
                    _ => true,
                };
                let from_mem = match from {
                    Byte::Single(..) => false,
                    _ => true,
                };
                !(to_mem && from_mem)
            },
            Op::Push(w) | Op::Pop(w) => match w {
                Word::OnBoard(..) => true,
                Word::ProgramStatus => true,
                _ => false,
            },
            _ => true,
        }
    }
}

/// Whatever instruction the decoder produces, the execution engine accepts
/// it and charges at least one cycle for it: a fetched program can never
/// hand `execute_on` an operation it refuses.
#[verifier::rlimit(100)]
#[verifier::spinoff_prover]
pub proof fn lemma_decoded_ops_run(b0: u8, b1: u8, b2: u8, s: State)
    ensures
        crate::opcode::spec_extract(seq![b0, b1, b2]) matches Ok((op, len)) ==> spec_executable(
            op,
        ) && spec_cycles(op, s) >= 1,
{
    reveal(spec_cycles);
    reveal(crate::opcode::spec_decode1);
    reveal(crate::opcode::spec_decode2);
    reveal(crate::opcode::spec_decode3);
}

} // verus!
