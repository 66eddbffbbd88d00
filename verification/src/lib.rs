//! An Intel 8080 microprocessor core: a cycle-counted interpreter for the
//! 8080 instruction set that runs against a user-supplied memory and I/O bus.
//!
//! The core owns the processor state ([`State`]): seven byte registers, the
//! five condition flags, the program counter, the stack pointer and the
//! halted/interrupt latches.  Instructions are modelled by the [`Op`] sum
//! type together with a bidirectional codec between raw bytes and `Op`
//! values.  A [`Machine`] couples a `State` with a [`Harness`] — the trait
//! through which every memory fetch, memory store, port read and port write
//! is mediated — and drives fetch-decode-execute steps.

pub mod access;
pub mod alu;
pub mod exec;
pub mod machine;
pub mod opcode;
pub mod simple;
pub mod state;

pub use access::Byte;
pub use access::Double;
pub use access::Internal;
pub use access::Word;
pub use machine::Failure;
pub use machine::Harness;
pub use machine::Machine;
pub use opcode::Error;
pub use opcode::Flag;
pub use opcode::Op;
pub use opcode::OutOfRange;
pub use opcode::Test;
pub use simple::SimpleBoard;
pub use state::Register;
pub use state::State;
