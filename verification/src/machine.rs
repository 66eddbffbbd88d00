//! The machine façade: the [`Harness`] trait through which the core
//! touches the outside world, and the [`Machine`] that owns a processor
//! state and a harness and drives fetch-decode-execute steps.

use vstd::prelude::*;
use vstd::pervasive::unreached;
use crate::exec::spec_cycles;
use crate::exec::spec_executable;
use crate::exec::spec_step;
use crate::exec::lemma_decoded_ops_run;
use crate::opcode::Error;
use crate::opcode::Op;
use crate::opcode::OutOfRange;
use crate::opcode::is_unknown;
use crate::opcode::spec_extract;
use crate::opcode::spec_len;
use crate::opcode::try_decode1;
use crate::opcode::try_decode2;
use crate::opcode::try_decode3;
use crate::state::State;
use crate::state::spec_add16;
use crate::state::spec_sub16;

verus! {

/// The bus of the machine.  The core uses a value of a type of your
/// choosing to read and write bytes and little-endian words at 16-bit
/// addresses, and to exchange bytes on 8-bit ports.  What a read returns
/// and what becomes of a write is entirely the harness's concern: the core
/// promises only the state transitions of [`crate::exec::spec_step`],
/// which hold whatever the harness answers.
pub trait Harness {
    /// Returns the byte at a 16-bit address.  This is the one operation a
    /// usable machine cannot do without: instruction fetch goes through it.
    fn read(&self, from: u16) -> u8;

    /// Reads a 16-bit word in little-endian order from `from` and the
    /// following address (wrapping).  The default composes two `read`
    /// calls; supply your own when adjacent bytes can be read at once.
    fn read_word(&self, from: u16) -> u16 {
        let lo = self.read(from);
        let hi = self.read(from.wrapping_add(1));
        lo as u16 + 256 * (hi as u16)
    }

    /// Writes a byte to a 16-bit address.  The default discards the byte,
    /// which emulates read-only memory.
    fn write(&mut self, to: u16, value: u8) {
    }

    /// Writes a 16-bit word in little-endian order to `to` and the
    /// following address (wrapping).  The default composes two `write`
    /// calls.
    fn write_word(&mut self, to: u16, value: u16) {
        self.write(to, (value % 256) as u8);
        self.write(to.wrapping_add(1), (value / 256) as u8);
    }

    /// The byte currently presented on an input port.
    fn input(&mut self, port: u8) -> u8;

    /// Accepts a byte on an output port.
    fn output(&mut self, port: u8, value: u8);

    /// Reports every executed operation back to the harness, with read
    /// access to the processor state.  The harness may answer with a
    /// follow-up operation, which the machine executes on the same step
    /// with no fresh fetch, or fail with a diagnostic that `execute`
    /// carries out to its caller.  The default does neither.
    fn did_execute(&mut self, client: &State, did: Op) -> Result<Option<Op>, String> {
        Ok(None)
    }
}

/// One fetch-decode-execute step, seen from outside: some decodable
/// instruction `op` of byte length `len` took the state from `pre` — with
/// the program counter already advanced past the instruction — to `mid`.
/// On success the step either ended there, reporting the instruction's own
/// cycle count, or a single follow-up operation from the harness hook took
/// `mid` to `post`, reporting no further cycles when the follow-up was
/// `Halt` and the instruction's count otherwise.  A failing or refused hook
/// leaves the state exactly as the instruction body left it: `post == mid`.
pub open spec fn spec_fetched_step(
    pre: State,
    op: Op,
    len: u16,
    mid: State,
    post: State,
    r: Result<Option<u8>, Failure>,
) -> bool {
    let advanced = State { pc: spec_add16(pre.pc, len), ..pre };
    &&& 1 <= len <= 3
    &&& exists|x0: u8, x1: u8, x2: u8|
        spec_extract(seq![x0, x1, x2]) == Ok::<(Op, int), Error>((op, len as int))
    &&& spec_step(op, advanced, mid)
    &&& match r {
        Ok(reported) => (post == mid && reported == Some(spec_cycles(op, advanced))) || exists|
            follow: Op,
        |
            #[trigger] spec_step(follow, mid, post) && reported == (if follow == Op::Halt {
                None::<u8>
            } else {
                Some(spec_cycles(op, advanced))
            }),
        Err(Failure::Decode(_)) => false,
        Err(_) => post == mid,
    }
}

/// Why a fetch-decode-execute step could not complete.
#[derive(Debug)]
pub enum Failure {
    /// The bytes at the program counter decode to no instruction.  The
    /// machine state is exactly as it was before the step.
    Decode(Error),
    /// The post-instruction hook failed; its diagnostic is carried out.
    /// The state is exactly as the instruction body left it.
    Hook(String),
    /// The post-instruction hook answered with an operation the execution
    /// engine does not accept.  The state is exactly as the instruction
    /// body left it.
    FollowUp(Op),
}

/// The outward-facing machine: a processor state coupled to a harness.
pub struct Machine<H: Harness> {
    /// The processor state.
    pub chip: State,
    /// The harness mediating memory and port traffic.
    pub board: H,
}

impl<H: Harness> Machine<H> {
    /// Couples a fresh processor state to the given harness.
    pub fn new(board: H) -> (r: Machine<H>)
        ensures
            r.chip == (State {
                pc: 0u16,
                sp: 0u16,
                reg_b: 0u8,
                reg_c: 0u8,
                reg_d: 0u8,
                reg_e: 0u8,
                reg_h: 0u8,
                reg_l: 0u8,
                reg_a: 0u8,
                c: false,
                a: false,
                p: false,
                m: false,
                z: false,
                active: true,
                interrupts: false,
            }),
            r.board == board,
    {
        Machine { chip: State::new(), board }
    }

    /// Retrieves, decodes and executes one instruction from the harness
    /// address space.
    ///
    /// A halted machine is a fixed point: the call returns one cycle and
    /// changes nothing, so a driver can run forward deterministically while
    /// waiting for an interrupt.  Otherwise the bytes at the program
    /// counter are decoded — reading no byte past the instruction — the
    /// program counter advances by the instruction length *before* the
    /// body runs, the body runs, and the harness hook is invoked.  A
    /// successful step returns the executed instruction's architectural
    /// cycle count; a follow-up operation from the hook runs on the same
    /// step, and when that follow-up is `Halt` the step reports no further
    /// cycles.
    ///
    /// A byte sequence that decodes to no instruction leaves the machine
    /// untouched and is reported as [`Failure::Decode`]; a failing hook is
    /// carried out as [`Failure::Hook`] with the state exactly as the
    /// instruction body left it.
    #[verifier::rlimit(100)]
    #[verifier::spinoff_prover]
    pub fn execute(&mut self) -> (r: Result<Option<u8>, Failure>)
        ensures
            !old(self).chip.active ==> r == Ok::<Option<u8>, Failure>(Some(1u8))
                && final(self).chip == old(self).chip
                && final(self).board == old(self).board,
            r matches Err(Failure::Decode(_)) ==> final(self).chip == old(self).chip
                && final(self).board == old(self).board,
            r matches Ok(Some(n)) ==> n >= 1,
            r matches Ok(None) ==> !final(self).chip.active,
            old(self).chip.active && !(r matches Err(Failure::Decode(_))) ==> exists|
                op: Op,
                len: u16,
                mid: State,
            | #[trigger] spec_fetched_step(old(self).chip, op, len, mid, final(self).chip, r),
    {
        if !self.chip.active {
            return Ok(Some(1));
        }
        let b0 = self.board.read(self.chip.pc);
        let op: Op;
        let len: u16;
        match try_decode1(b0) {
            Some(one) => {
                op = one;
                len = 1;
                proof {
                    assert(spec_extract(seq![b0, 0u8, 0u8]) == Ok::<(Op, int), Error>((op, 1int)));
                }
            },
            None => {
                if is_unknown(b0) {
                    return Err(Failure::Decode(Error::Unknown(b0)));
                }
                let b1 = self.board.read(self.chip.pc.wrapping_add(1));
                match try_decode2(b0, b1) {
                    Some(two) => {
                        op = two;
                        len = 2;
                        proof {
                            assert(spec_extract(seq![b0, b1, 0u8]) == Ok::<(Op, int), Error>(
                                (op, 2int),
                            ));
                        }
                    },
                    None => {
                        let b2 = self.board.read(self.chip.pc.wrapping_add(2));
                        match try_decode3(b0, b1, b2) {
                            Some(three) => {
                                op = three;
                                len = 3;
                                proof {
                                    assert(spec_extract(seq![b0, b1, b2]) == Ok::<
                                        (Op, int),
                                        Error,
                                    >((op, 3int)));
                                }
                            },
                            None => {
                                return Err(Failure::Decode(Error::InvalidTriple(b0, b1, b2)));
                            },
                        }
                    },
                }
            },
        }
        self.chip.pc = self.chip.pc.wrapping_add(len);
        proof {
            let (x0, x1, x2) = choose|x0: u8, x1: u8, x2: u8|
                spec_extract(seq![x0, x1, x2]) == Ok::<(Op, int), Error>((op, len as int));
            lemma_decoded_ops_run(x0, x1, x2, self.chip);
        }
        let ghost advanced = self.chip;
        let outcome = op.execute_on(&mut self.chip, &mut self.board);
        let ghost mid = self.chip;
        proof {
            assert(outcome == Some(spec_cycles(op, advanced)));
            assert(spec_fetched_step(old(self).chip, op, len, mid, mid, Ok::<
                Option<u8>,
                Failure,
            >(outcome)));
        }
        match self.board.did_execute(&self.chip, op) {
            Err(text) => {
                proof {
                    assert(spec_fetched_step(old(self).chip, op, len, mid, self.chip, Err::<
                        Option<u8>,
                        Failure,
                    >(Failure::Hook(text))));
                }
                return Err(Failure::Hook(text));
            },
            Ok(Some(action)) => {
                if !action.is_executable() {
                    proof {
                        assert(spec_fetched_step(old(self).chip, op, len, mid, self.chip, Err::<
                            Option<u8>,
                            Failure,
                        >(Failure::FollowUp(action))));
                    }
                    return Err(Failure::FollowUp(action));
                }
                let _ = action.execute_on(&mut self.chip, &mut self.board);
                if action == Op::Halt {
                    proof {
                        reveal(crate::exec::spec_step);
                        assert(spec_fetched_step(old(self).chip, op, len, mid, self.chip, Ok::<
                            Option<u8>,
                            Failure,
                        >(None)));
                    }
                    return Ok(None);
                }
                proof {
                    assert(spec_step(action, mid, self.chip));
                    assert(spec_fetched_step(old(self).chip, op, len, mid, self.chip, Ok::<
                        Option<u8>,
                        Failure,
                    >(outcome)));
                }
            },
            Ok(None) => {},
        }
        proof {
            assert(spec_fetched_step(old(self).chip, op, len, mid, self.chip, Ok::<
                Option<u8>,
                Failure,
            >(outcome)));
        }
        Ok(outcome)
    }

    /// Submits an interrupt request carrying any operation that fits in one
    /// byte.  With interrupts disabled nothing happens and `Ok(false)`
    /// comes back.  Otherwise the machine reactivates, the interrupt latch
    /// clears — vectors re-enable it with `EI` before returning — the
    /// operation executes with all its usual effects, and `Ok(true)` comes
    /// back.  A multi-byte operation is refused as `NotUsable` with no
    /// state change.
    pub fn interrupt(&mut self, op: Op) -> (r: Result<bool, Error>)
        requires
            spec_executable(op),
        ensures
            spec_len(op) != 1 ==> r == Err::<bool, Error>(Error::NotUsable(op)) && *final(self)
                == *old(self),
            spec_len(op) == 1 && !old(self).chip.interrupts ==> r == Ok::<bool, Error>(false)
                && *final(self) == *old(self),
            spec_len(op) == 1 && old(self).chip.interrupts ==> r == Ok::<bool, Error>(true)
                && spec_step(
                op,
                State { active: true, interrupts: false, ..old(self).chip },
                final(self).chip,
            ),
    {
        if op.len() == 1 {
            if self.chip.interrupts {
                self.chip.active = true;
                self.chip.interrupts = false;
                let _ = op.execute_on(&mut self.chip, &mut self.board);
                Ok(true)
            } else {
                Ok(false)
            }
        } else {
            Err(Error::NotUsable(op))
        }
    }

    /// Shorthand for injecting `RST index`: the machine, if it is taking
    /// interrupts, pushes the program counter and jumps to `index * 8`.
    /// A vector outside `0..=7` is refused with no state change.
    pub fn reset_to(&mut self, index: usize) -> (r: Result<bool, OutOfRange>)
        ensures
            index > 7 ==> r == Err::<bool, OutOfRange>(OutOfRange) && *final(self) == *old(self),
            index <= 7 && !old(self).chip.interrupts ==> r == Ok::<bool, OutOfRange>(false)
                && *final(self) == *old(self),
            index <= 7 && old(self).chip.interrupts ==> r == Ok::<bool, OutOfRange>(true)
                && final(self).chip == (State {
                active: true,
                interrupts: false,
                sp: spec_sub16(old(self).chip.sp, 2),
                pc: (8 * index) as u16,
                ..old(self).chip
            }),
    {
        proof {
            reveal(crate::exec::spec_step);
        }
        if index <= 7 {
            match self.interrupt(Op::Reset { vector: index as u8 }) {
                Ok(taken) => Ok(taken),
                Err(_) => unreached(),
            }
        } else {
            Err(OutOfRange)
        }
    }
}

} // verus!
