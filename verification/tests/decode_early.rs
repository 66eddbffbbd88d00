use lemurs_8080::Byte;
use lemurs_8080::Double;
use lemurs_8080::Error;
use lemurs_8080::Flag;
use lemurs_8080::Internal;
use lemurs_8080::Op;
use lemurs_8080::Register;
use lemurs_8080::Test;
use lemurs_8080::Word;

fn decode(value: &[u8]) -> Result<(Op, usize), Error> {
    Op::extract(value)
}

#[test]
fn opcode_no_op() {
    let op = decode(&[0x00]).unwrap();
    assert_eq!(op.0, Op::NOP(4));
}

#[test]
fn opcode_and() {
    let op = decode(&[0xE6, 0x79]).unwrap();
    assert_eq!(op.0, Op::AndWith { value: 0x79 });
}

#[test]
fn opcode_xor() {
    let op = decode(&[0xEE, 0x4D]).unwrap();
    assert_eq!(op.0, Op::ExclusiveOrWith { value: 0x4D });
}

#[test]
fn opcode_or() {
    let op = decode(&[0xF6, 0x23]).unwrap();
    assert_eq!(op.0, Op::OrWith { value: 0x23 });
}

#[test]
fn opcode_xthl() {
    let op = decode(&[0xE3, 0x1D]).unwrap();
    assert_eq!(op.0, Op::ExchangeTopWithHilo);
}

#[test]
fn opcode_move_() {
    let op = decode(&[0x56]).unwrap();
    assert_eq!(op.0, Op::Move { to: Byte::Single(Register::D), from: Byte::Indirect });
    let op = decode(&[76]).unwrap();
    assert_ne!(op.0, Op::Move { to: Byte::Indirect, from: Byte::Indirect });
}

#[test]
fn opcode_reset_from_val() {
    let op = decode(&[0xD7]).unwrap();
    assert_eq!(op.0, Op::Reset { vector: 2 });
}

#[test]
fn opcode_return_() {
    let op = decode(&[0xC9, 0x31, 0x00]).unwrap();
    assert_eq!(op.0, Op::Return);
}

#[test]
fn opcode_return_if() {
    let op = decode(&[0xD8]).unwrap();
    assert_eq!(op.0, Op::ReturnIf(Test::Is(Flag::Carry)));
    let op = decode(&[0xF0]).unwrap();
    assert_eq!(op.0, Op::ReturnIf(Test::Not(Flag::Negative)));
}

#[test]
fn opcode_load_xi() {
    let op = decode(&[0x31, 0x25, 0x02]).unwrap();
    assert_eq!(op.0, Op::LoadExtendedWith { to: Internal::StackPointer, value: 549 });
    let fail = decode(&[0x11, 0x21]).unwrap_err();
    assert_eq!(fail, Error::InvalidPair(0x11, 0x21));
}

#[test]
fn opcode_halt() {
    let op = decode(&[0x76]).unwrap();
    assert_eq!(op.0, Op::Halt);
}

#[test]
fn opcode_jump() {
    let op = decode(&[0xC3, 0x74, 0x31]).unwrap();
    assert_eq!(op.0, Op::Jump { to: 0x3174 });
    let op = decode(&[0xF2, 0x31, 0x4A]).unwrap();
    assert_eq!(op.0, Op::JumpIf(Test::Not(Flag::Negative), 0x4A31));
    let fail = decode(&[0xFA]).unwrap_err();
    assert_eq!(fail, Error::Invalid(0xFA));
}

#[test]
fn opcode_call() {
    let op = decode(&[0xCD, 0xD3, 0x08]).unwrap();
    assert_eq!(op.0, Op::Call { sub: 0x08D3 });
    let op = decode(&[0xE4, 0x4B, 0x03]).unwrap();
    assert_eq!(op.0, Op::CallIf(Test::Not(Flag::EvenParity), 0x034B));
    let fail = decode(&[0xD2, 0x07]).unwrap_err();
    assert_eq!(fail, Error::InvalidPair(0xD2, 0x07));
}

#[test]
fn adi() {
    let op = decode(&[0xC6, 0x39, 0x02]).unwrap();
    assert_eq!(op.0, Op::AddTo { value: 0x39, carry: false });
    let fail = decode(&[0xC6]).unwrap_err();
    assert_eq!(fail, Error::Invalid(0xC6));
    let op = decode(&[0xCE, 0x72]).unwrap();
    assert_eq!(op.0, Op::AddTo { value: 0x72, carry: true });
}

#[test]
fn opcode_pop() {
    let op = decode(&[0xE1]).unwrap();
    assert_eq!(op.0, Op::Pop(Word::OnBoard(Internal::Wide(Double::HL))));
}

#[test]
fn opcode_push() {
    let op = decode(&[0xD5, 0xEB, 0x0E]).unwrap();
    assert_eq!(op.1, 1);
    assert_eq!(op.0, Op::Push(Word::OnBoard(Internal::Wide(Double::DE))));
    let op = decode(&[0xF5, 0xB0]).unwrap();
    assert_eq!(op.0, Op::Push(Word::ProgramStatus));
}

#[test]
fn opcode_rotate() {
    let op = decode(&[0x0F, 0x0F]).unwrap();
    assert_eq!(op.0, Op::RotateRightCarrying);
}

#[test]
fn opcode_move_i() {
    let op = decode(&[0x0E, 0x09, 0xCD]).unwrap();
    assert_eq!(op.1, 2);
    assert_eq!(op.0, Op::MoveData { value: 0x09, to: Byte::Single(Register::C) });
    let fail = decode(&[0x26]).unwrap_err();
    assert_eq!(fail, Error::Invalid(0x26));
}

#[test]
fn opcode_subtract() {
    let op = decode(&[0xD6, 0x79, 0x01]).unwrap();
    assert_eq!(op.0, Op::SubtractBy { value: 0x79, carry: false });
    let op = decode(&[0xDE, 0x9E]).unwrap();
    assert_eq!(op.0, Op::SubtractBy { value: 0x9E, carry: true });
}

#[test]
fn opcode_compare_i() {
    let op = decode(&[0xFE, 0x2B]).unwrap();
    assert_eq!(op.1, 2);
    assert_eq!(op.0, Op::CompareWith { value: 0x2B });
    let fail = decode(&[0xFE]).unwrap_err();
    assert_eq!(fail, Error::Invalid(0xFE));
}
