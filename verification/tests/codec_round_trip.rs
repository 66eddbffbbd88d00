use lemurs_8080::Byte;
use lemurs_8080::Double;
use lemurs_8080::Flag;
use lemurs_8080::Internal;
use lemurs_8080::Op;
use lemurs_8080::Register;
use lemurs_8080::Test;
use lemurs_8080::Word;

fn byte_locations() -> Vec<Byte> {
    vec![
        Byte::Single(Register::B),
        Byte::Single(Register::C),
        Byte::Single(Register::D),
        Byte::Single(Register::E),
        Byte::Single(Register::H),
        Byte::Single(Register::L),
        Byte::Single(Register::A),
        Byte::Indirect,
    ]
}

fn tests() -> Vec<Test> {
    let mut out = Vec::new();
    for flag in [Flag::Zero, Flag::Carry, Flag::EvenParity, Flag::Negative] {
        out.push(Test::Not(flag));
        out.push(Test::Is(flag));
    }
    out
}

fn internals() -> Vec<Internal> {
    vec![
        Internal::Wide(Double::BC),
        Internal::Wide(Double::DE),
        Internal::Wide(Double::HL),
        Internal::StackPointer,
    ]
}

fn words() -> Vec<Word> {
    vec![
        Word::OnBoard(Internal::Wide(Double::BC)),
        Word::OnBoard(Internal::Wide(Double::DE)),
        Word::OnBoard(Internal::Wide(Double::HL)),
        Word::ProgramStatus,
    ]
}

fn constructible_ops() -> Vec<Op> {
    let values: [u8; 3] = [0x00, 0x5A, 0xFF];
    let addresses: [u16; 3] = [0x0000, 0x1234, 0xFFFF];
    let mut ops = vec![
        Op::NOP(4),
        Op::ComplementAccumulator,
        Op::DecimalAddAdjust,
        Op::ExchangeDoubleWithHilo,
        Op::ExchangeTopWithHilo,
        Op::Halt,
        Op::ProgramCounterFromHilo,
        Op::StackPointerFromHilo,
        Op::Return,
        Op::RotateLeftCarrying,
        Op::RotateRightCarrying,
        Op::RotateAccumulatorLeft,
        Op::RotateAccumulatorRight,
        Op::CarryFlag(true),
        Op::CarryFlag(false),
        Op::Interrupts(true),
        Op::Interrupts(false),
        Op::LoadAccumulatorIndirect { register: Double::BC },
        Op::LoadAccumulatorIndirect { register: Double::DE },
        Op::StoreAccumulatorIndirect { register: Double::BC },
        Op::StoreAccumulatorIndirect { register: Double::DE },
    ];
    for vector in 0..8 {
        ops.push(Op::Reset { vector });
    }
    for from in byte_locations() {
        for carry in [false, true] {
            ops.push(Op::Add { from, carry });
            ops.push(Op::Subtract { from, carry });
        }
        ops.push(Op::And { from });
        ops.push(Op::ExclusiveOr { from });
        ops.push(Op::Or { from });
        ops.push(Op::Compare { from });
        ops.push(Op::IncrementByte { register: from });
        ops.push(Op::DecrementByte { register: from });
    }
    for to in byte_locations() {
        for from in byte_locations() {
            if !(to == Byte::Indirect && from == Byte::Indirect) {
                ops.push(Op::Move { to, from });
            }
        }
        for value in values {
            ops.push(Op::MoveData { value, to });
        }
    }
    for value in values {
        for carry in [false, true] {
            ops.push(Op::AddTo { value, carry });
            ops.push(Op::SubtractBy { value, carry });
        }
        ops.push(Op::AndWith { value });
        ops.push(Op::ExclusiveOrWith { value });
        ops.push(Op::OrWith { value });
        ops.push(Op::CompareWith { value });
        ops.push(Op::In(value));
        ops.push(Op::Out(value));
    }
    for register in internals() {
        ops.push(Op::IncrementWord { register });
        ops.push(Op::DecrementWord { register });
        ops.push(Op::DoubleAdd { register });
        for address in addresses {
            ops.push(Op::LoadExtendedWith { to: register, value: address });
        }
    }
    for word in words() {
        ops.push(Op::Push(word));
        ops.push(Op::Pop(word));
    }
    for address in addresses {
        ops.push(Op::Call { sub: address });
        ops.push(Op::Jump { to: address });
        ops.push(Op::LoadAccumulator { address });
        ops.push(Op::StoreAccumulator { address });
        ops.push(Op::LoadHilo { address });
        ops.push(Op::StoreHilo { address });
        for test in tests() {
            ops.push(Op::CallIf(test, address));
            ops.push(Op::JumpIf(test, address));
        }
    }
    for test in tests() {
        ops.push(Op::ReturnIf(test));
    }
    ops
}

#[test]
fn round_trip_every_constructible_op() {
    for op in constructible_ops() {
        let encoded = op.encode();
        let len = encoded[0] as usize;
        assert_eq!(len as u8, op.len(), "wire length differs from len() for {op:?}");
        let (back, used) = Op::extract(&encoded[1..1 + len])
            .unwrap_or_else(|e| panic!("{op:?} encoded to {encoded:?} but failed: {e:?}"));
        assert_eq!(back, op);
        assert_eq!(used, len);
    }
}

#[test]
fn decoding_ignores_bytes_past_the_instruction() {
    for op in constructible_ops() {
        let encoded = op.encode();
        let len = encoded[0] as usize;
        let padded = [encoded[1], encoded[2], encoded[3]];
        let (back, used) = Op::extract(&padded).unwrap();
        assert_eq!(back, op);
        assert_eq!(used, len);
    }
}

#[test]
fn wire_form_examples() {
    assert_eq!(Op::NOP(4).encode(), [1, 0x00, 0, 0]);
    assert_eq!(Op::Reset { vector: 5 }.encode(), [1, 0xEF, 0, 0]);
    assert_eq!(Op::CallIf(Test::Not(Flag::Zero), 0x1234).encode(), [3, 0xC4, 0x34, 0x12]);
    assert_eq!(Op::ReturnIf(Test::Is(Flag::Carry)).encode(), [1, 0xD8, 0, 0]);
    assert_eq!(Op::MoveData { value: 0x09, to: Byte::Single(Register::C) }.encode(), [
        2,
        0x0E,
        0x09,
        0,
    ]);
    assert_eq!(Op::Move { to: Byte::Single(Register::D), from: Byte::Indirect }.encode(), [
        1,
        0x56,
        0,
        0,
    ]);
}

#[test]
fn architectural_lengths() {
    assert_eq!(Op::Call { sub: 0 }.len(), 3);
    assert_eq!(Op::CallIf(Test::Is(Flag::Zero), 0).len(), 3);
    assert_eq!(Op::Jump { to: 0 }.len(), 3);
    assert_eq!(Op::LoadExtendedWith { to: Internal::StackPointer, value: 0 }.len(), 3);
    assert_eq!(Op::LoadHilo { address: 0 }.len(), 3);
    assert_eq!(Op::AddTo { value: 0, carry: false }.len(), 2);
    assert_eq!(Op::Out(1).len(), 2);
    assert_eq!(Op::MoveData { value: 0, to: Byte::Indirect }.len(), 2);
    assert_eq!(Op::ReturnIf(Test::Is(Flag::Carry)).len(), 1);
    assert_eq!(Op::Return.len(), 1);
    assert_eq!(Op::Halt.len(), 1);
    assert_eq!(Op::Reset { vector: 7 }.len(), 1);
}
