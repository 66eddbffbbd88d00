use lemurs_8080::Byte;
use lemurs_8080::Double;
use lemurs_8080::Flag;
use lemurs_8080::Harness;
use lemurs_8080::Internal;
use lemurs_8080::Op;
use lemurs_8080::Register;
use lemurs_8080::SimpleBoard;
use lemurs_8080::State;
use lemurs_8080::Test;
use lemurs_8080::Word;

#[test]
fn execution_add() {
    let mut harness = SimpleBoard::new();
    let mut chip = State::new();
    chip.reg_a = 0x75;
    Op::AddTo { value: 0x49, carry: false }.execute_on(&mut chip, &mut harness).unwrap();
    assert_eq!(chip.reg_a, 0xBE);
    assert!(!chip.a, "aux carry was {}", chip.a);
    assert!(!chip.c, "carry was {}", chip.c);
    assert!(!chip.z, "zero bit was {}", chip.z);
    assert!(chip.m, "sign bit was {}", chip.m);
    assert!(chip.p, "parity bit was {}", chip.p);

    Op::AddTo { value: 0x43, carry: false }.execute_on(&mut chip, &mut harness).unwrap();
    assert_eq!(chip.reg_a, 0x01, "Sum was {}", chip.reg_a);
    assert!(chip.a, "aux carry was {}", chip.a);
    assert!(chip.c, "carry was {}", chip.c);
    assert!(!chip.z, "zero bit was {}", chip.z);
    assert!(!chip.m, "sign bit was {}", chip.m);
    assert!(!chip.p, "parity bit was {}", chip.p);

    Op::AddTo { value: 0x7E, carry: true }.execute_on(&mut chip, &mut harness).unwrap();
    assert_eq!(chip.reg_a, 0x80, "Sum was {}", chip.reg_a);
    assert!(chip.a, "aux carry was {}", chip.a);
    assert!(!chip.c, "carry was {}", chip.c);
    assert!(!chip.z, "zero bit was {}", chip.z);
    assert!(chip.m, "sign bit was {}", chip.m);
    assert!(!chip.p, "parity bit was {}", chip.p);
}

#[test]
fn execution_and() {
    let mut env = SimpleBoard::new();
    let mut chip = State::new();
    chip.reg_a = 0b01011101;
    Op::AndWith { value: 0b11011011 }.execute_on(&mut chip, &mut env).unwrap();
    assert_eq!(chip.reg_a, 0b01011001);
    assert!(!chip.a, "aux carry was {}", chip.a);
    assert!(!chip.c, "carry was {}", chip.c);
    assert!(!chip.z, "zero bit was {}", chip.z);
    assert!(!chip.m, "sign bit was {}", chip.m);
    assert!(chip.p, "parity bit was {}", chip.p);

    Op::AndWith { value: 0b10100100 }.execute_on(&mut chip, &mut env).unwrap();
    assert_eq!(chip.reg_a, 0b00000000);
    assert!(!chip.a, "aux carry was {}", chip.a);
    assert!(!chip.c, "carry was {}", chip.c);
    assert!(chip.z, "zero bit was {}", chip.z);
    assert!(!chip.m, "sign bit was {}", chip.m);
    assert!(chip.p, "parity bit was {}", chip.p);
}

#[test]
fn execution_call() {
    let mut env = SimpleBoard::new();
    let mut chip = State::new();
    chip.pc = 0x000C;
    chip.sp = 0x0100;
    let stack = chip.sp;
    env.set(stack, 0x55);
    Op::Call { sub: 0x00A2 }.execute_on(&mut chip, &mut env).unwrap();
    assert_eq!(chip.pc, 0x00A2);
    assert_eq!(chip.sp, 0x00FE);
    assert_eq!(env.get(0x00FE), 0x0C);
    assert_eq!(env.get(0x00FF), 0x00);
    assert_eq!(env.get(0x0100), 0x55);

    chip.reg_a = 0xC4;
    Op::AddTo { value: 0x3C, carry: false }.execute_on(&mut chip, &mut env).unwrap();
    Op::CallIf(Test::Not(Flag::Zero), 0x2000).execute_on(&mut chip, &mut env).unwrap();
    assert_eq!(chip.pc, 0x00A2);
    assert_eq!(chip.sp, 0x00FE);
    assert_eq!(env.get(0x00FE), 0x0C);
    assert_eq!(env.get(0x00FF), 0x00);

    Op::CallIf(Test::Is(Flag::EvenParity), 0x1300).execute_on(&mut chip, &mut env).unwrap();
    assert_eq!(chip.pc, 0x1300);
    assert_eq!(chip.sp, 0x00FC);
    assert_eq!(env.get(0x00FC), 0xA2);
    assert_eq!(env.get(0x00FD), 0x00);
}

#[test]
fn execution_xthl() {
    let mut env = SimpleBoard::new();
    let mut chip = State::new();
    chip.sp = 0x7BE3;
    chip.set_pair(Double::HL, 0x3472);
    env.set(0x7BE3, 0x43);
    env.set(0x7BE4, 0x29);
    Op::ExchangeTopWithHilo.execute_on(&mut chip, &mut env).unwrap();
    assert_eq!(chip.sp, 0x7BE3);
    assert_eq!(chip.reg_l, 0x43);
    assert_eq!(chip.reg_h, 0x29);
    assert_eq!(env.read_word(chip.sp), 0x3472);
}

#[test]
fn execution_xor() {
    let mut env = SimpleBoard::new();
    let mut chip = State::new();
    chip.reg_a = 0b10011100;
    chip.update_flags();
    chip.c = true;
    Op::ExclusiveOrWith { value: 0b00111110 }.execute_on(&mut chip, &mut env).unwrap();
    assert_eq!(chip.reg_a, 0b10100010);
    assert!(!chip.c, "Carry flag set");
    assert!(!chip.z, "Zero flag set");
    assert!(chip.m, "minus flag reset");
    assert!(!chip.p, "parity flag even");
}

#[test]
fn execution_compare_i() {
    let mut env = SimpleBoard::new();
    let mut chip = State::new();
    chip.reg_a = 0b01011011;
    Op::CompareWith { value: 0b10100011 }.execute_on(&mut chip, &mut env).unwrap();
    assert_eq!(chip.reg_a, 0x5B);
    assert!(chip.a, "Auxilliary carry flag reset");
    assert!(chip.c, "Carry flag cleared");
    assert!(!chip.z, "Zero flag set");
    assert!(chip.m, "Sign flag cleared");
    assert!(chip.p, "Parity flag odd");
}

#[test]
fn execution_halt() {
    let mut env = SimpleBoard::new();
    let mut chip = State::new();
    chip.pc = 0x2534;
    chip.pc = chip.pc.wrapping_add(Op::Halt.len() as u16);
    Op::Halt.execute_on(&mut chip, &mut env).unwrap();
    assert_eq!(chip.pc, 0x2535);
    assert!(!chip.active, "Processor not stopped");
}

#[test]
fn execution_jump() {
    let mut env = SimpleBoard::new();
    let mut chip = State::new();
    Op::Jump { to: 0x0340 }.execute_on(&mut chip, &mut env).unwrap();
    assert_eq!(chip.pc, 0x0340);
    chip.reg_a = 0x90;
    Op::AddTo { value: 0x73, carry: false }.execute_on(&mut chip, &mut env).unwrap();
    Op::JumpIf(Test::Not(Flag::Carry), 0x1203).execute_on(&mut chip, &mut env).unwrap();
    assert_eq!(chip.pc, 0x0340);
    assert!(!chip.m, "MINUS flag was {} after result {}", chip.m, chip.reg_a);
    Op::JumpIf(Test::Not(Flag::Negative), 0x5432).execute_on(&mut chip, &mut env).unwrap();
    assert_eq!(chip.pc, 0x5432);
}

#[test]
fn execution_load_xi() {
    let mut env = SimpleBoard::new();
    let mut chip = State::new();
    Op::LoadExtendedWith { to: Internal::Wide(Double::HL), value: 0x6472 }.execute_on(
        &mut chip,
        &mut env,
    ).unwrap();
    assert_eq!(chip.reg_l, 0x72);
    assert_eq!(chip.reg_h, 0x64);
}

#[test]
fn execution_move_() {
    let mut env = SimpleBoard::new();
    let mut chip = State::new();
    chip.reg_a = 0x05;
    chip.reg_h = 0x02;
    chip.reg_l = 0xA4;
    chip.reg_b = 0x32;
    env.set(0x02A4, 0xD4);
    env.set(0x0205, 0xB2);
    Op::Move { to: Byte::Single(Register::L), from: Byte::Single(Register::A) }.execute_on(
        &mut chip,
        &mut env,
    ).unwrap();
    Op::Move { to: Byte::Single(Register::B), from: Byte::Indirect }.execute_on(
        &mut chip,
        &mut env,
    ).unwrap();
    assert_eq!(chip.reg_b, 0xB2);
}

#[test]
fn execution_or() {
    let mut env = SimpleBoard::new();
    let mut chip = State::new();
    chip.reg_a = 0b01010110;
    chip.update_flags();
    chip.c = true;
    Op::OrWith { value: 0b00010101 }.execute_on(&mut chip, &mut env).unwrap();
    assert_eq!(chip.reg_a, 0b01010111);
    assert!(!chip.c, "carry flag not reset");
    assert!(!chip.z, "zero flag set");
    assert!(!chip.m, "minus flag set");
    assert!(!chip.p, "parity flag even");
}

#[test]
fn execution_pop() {
    let mut env = SimpleBoard::new();
    let mut chip = State::new();
    chip.set_pair(Double::BC, 0x8372);
    chip.set_pair(Double::DE, 0x4928);
    chip.set_pair(Double::HL, 0x5B6E);
    chip.sp = 0x0238;
    env.set(0x0238, 0xB6);
    env.set(0x0239, 0x4E);
    Op::Pop(Word::OnBoard(Internal::Wide(Double::BC))).execute_on(&mut chip, &mut env).unwrap();
    assert_eq!(chip.get_pair(Double::BC), 0x4EB6);
    assert_eq!(chip.sp, 0x023A);
}

#[test]
fn execution_push() {
    let mut env = SimpleBoard::new();
    let mut chip = State::new();
    chip.sp = 0x4000;
    chip.set_pair(Double::BC, 0x3256);
    chip.set_pair(Double::DE, 0x2345);
    chip.set_pair(Double::HL, 0x7654);
    Op::Push(Word::OnBoard(Internal::Wide(Double::HL))).execute_on(&mut chip, &mut env).unwrap();
    assert_eq!(env.get(0x3FFE), 0x54);
    assert_eq!(env.get(0x3FFF), 0x76);
    assert_eq!(chip.sp, 0x3FFE);

    chip.reg_a = 0x90;
    Op::AddTo { value: 0x73, carry: false }.execute_on(&mut chip, &mut env).unwrap();
    Op::Push(Word::ProgramStatus).execute_on(&mut chip, &mut env).unwrap();
    assert_eq!(chip.sp, 0x3FFC);
    assert_eq!(env.get(0x3FFC), 0x03);
    assert_eq!(env.get(0x3FFD), 0b00000111);
}

#[test]
fn execution_reset() {
    let mut env = SimpleBoard::new();
    let mut chip = State::new();
    chip.pc = 0x0391;
    chip.sp = 0x0200;
    Op::Reset { vector: 0x05 }.execute_on(&mut chip, &mut env).unwrap();
    assert_eq!(chip.pc, 0x0028);
    assert_eq!(chip.sp, 0x01FE);
    assert_eq!(env.get(0x01FE), 0x91);
    assert_eq!(env.get(0x01FF), 0x03);
}

#[test]
fn execution_return_from() {
    let mut env = SimpleBoard::new();
    let mut chip = State::new();
    chip.pc = 0x02B6;
    chip.sp = 0x8EA5;
    env.set(0x8EA5, 0xFE);
    env.set(0x8EA6, 0x01);
    Op::Return.execute_on(&mut chip, &mut env).unwrap();
    assert_eq!(chip.sp, 0x8EA7);
    assert_eq!(chip.pc, 0x01FE);
}

#[test]
fn execution_rotate() {
    let mut env = SimpleBoard::new();
    let mut chip = State::new();
    chip.reg_a = 0b0111_0101;
    Op::RotateRightCarrying.execute_on(&mut chip, &mut env).unwrap();
    assert_eq!(chip.reg_a, 0b1011_1010);
    assert!(chip.c, "Carry bit cleared");
    Op::RotateRightCarrying.execute_on(&mut chip, &mut env).unwrap();
    assert_eq!(chip.reg_a, 0b0101_1101);
    assert!(!chip.c, "Carry bit set");
}

#[test]
fn execution_subtract() {
    let mut env = SimpleBoard::new();
    let mut chip = State::new();
    chip.reg_a = 0b1001_0011;
    Op::SubtractBy { value: 0b1011_0110, carry: false }.execute_on(&mut chip, &mut env).unwrap();
    assert_eq!(chip.reg_a, 0b1101_1101);
    assert!(!chip.a, "Auxilliary carry flag set");
    assert!(chip.c, "Carry flag cleared");
    assert!(!chip.z, "Zero flag set");
    assert!(chip.m, "Sign flag cleared");
    assert!(chip.p, "Parity flag odd");
    Op::SubtractBy { value: 0b1101_1101, carry: false }.execute_on(&mut chip, &mut env).unwrap();
    assert_eq!(chip.reg_a, 0b0000_0000);
    assert!(chip.a, "Auxilliary carry flag clear");
    assert!(!chip.c, "Carry flag set");
    assert!(chip.z, "Zero flag cleared");
    assert!(!chip.m, "Sign flag set");
    assert!(chip.p, "Parity flag odd");
    chip.c = true;
    Op::SubtractBy { value: 0b0011_1100, carry: true }.execute_on(&mut chip, &mut env).unwrap();
    assert_eq!(chip.reg_a, 0b1100_0011);
    assert!(chip.c, "carry flag reset");
    assert!(!chip.z, "zero flag set");
    assert!(chip.m, "sign flag reset");
    assert!(chip.p, "parity flag odd");
}

#[test]
fn execution_exchange() {
    let mut env = SimpleBoard::new();
    let mut chip = State::new();
    chip.reg_d = 0x2B;
    chip.reg_e = 0x43;
    chip.reg_h = 0xD1;
    chip.reg_l = 0x6C;
    Op::ExchangeDoubleWithHilo.execute_on(&mut chip, &mut env).unwrap();
    assert_eq!(chip.get_pair(Double::DE), 0xD16C);
    assert_eq!(chip.get_pair(Double::HL), 0x2B43);
}

#[test]
fn execution_move_i() {
    let mut env = SimpleBoard::new();
    let mut chip = State::new();
    chip.set_pair(Double::HL, 0x0421);
    Op::MoveData { value: 0x02, to: Byte::Single(Register::H) }.execute_on(&mut chip, &mut env)
        .unwrap();
    Op::MoveData { value: 0x72, to: Byte::Indirect }.execute_on(&mut chip, &mut env).unwrap();
    assert_eq!(env.get(0x0221), 0x72);
}
