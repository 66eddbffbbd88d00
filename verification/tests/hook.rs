use lemurs_8080::Failure;
use lemurs_8080::Harness;
use lemurs_8080::Machine;
use lemurs_8080::Op;
use lemurs_8080::State;

/// A harness that traps execution like a CP/M-style debug shim: 64 KiB of
/// RAM plus a scripted answer for the post-instruction hook.
struct Trap {
    ram: Vec<u8>,
    answer: Result<Option<Op>, String>,
}

impl Trap {
    fn with_answer(program: &[(u16, u8)], answer: Result<Option<Op>, String>) -> Trap {
        let mut ram = vec![0u8; 0x10000];
        for &(addr, byte) in program {
            ram[addr as usize] = byte;
        }
        Trap { ram, answer }
    }
}

impl Harness for Trap {
    fn read(&self, from: u16) -> u8 {
        self.ram[from as usize]
    }

    fn write(&mut self, to: u16, value: u8) {
        self.ram[to as usize] = value;
    }

    fn input(&mut self, _port: u8) -> u8 {
        0
    }

    fn output(&mut self, _port: u8, _value: u8) {}

    fn did_execute(&mut self, _client: &State, _did: Op) -> Result<Option<Op>, String> {
        self.answer.clone()
    }
}

#[test]
fn hook_runs_a_follow_up_on_the_same_step() {
    let mut m = Machine::new(Trap::with_answer(&[(0, 0x00)], Ok(Some(Op::Jump { to: 0x1234 }))));
    let cycles = m.execute().unwrap();
    assert_eq!(cycles, Some(4), "the reported cycles belong to the fetched instruction");
    assert_eq!(m.chip.pc, 0x1234, "the follow-up operation did not run");
}

#[test]
fn hook_halt_finalizes_the_step() {
    let mut m = Machine::new(Trap::with_answer(&[(0, 0x00)], Ok(Some(Op::Halt))));
    assert_eq!(m.execute().unwrap(), None, "a halting follow-up must report no further cycles");
    assert!(!m.chip.active);
}

#[test]
fn hook_failure_carries_its_diagnostic() {
    let mut m = Machine::new(
        Trap::with_answer(&[(0, 0x3C)], Err(String::from("trapped"))),
    );
    match m.execute() {
        Err(Failure::Hook(text)) => assert_eq!(text, "trapped"),
        other => panic!("expected the hook diagnostic, got {other:?}"),
    }
    assert_eq!(m.chip.reg_a, 1, "the instruction body must run before the hook fails");
    assert_eq!(m.chip.pc, 1);
}

#[test]
fn silent_hook_changes_nothing() {
    let mut m = Machine::new(Trap::with_answer(&[(0, 0x3C)], Ok(None)));
    assert_eq!(m.execute().unwrap(), Some(5));
    assert_eq!(m.chip.reg_a, 1);
}
