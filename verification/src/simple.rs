//! A minimal harness to get a machine running: a full 64-KiB RAM and one
//! byte array for each direction of port traffic.

use vstd::prelude::*;
use crate::machine::Harness;

verus! {

/// A minimal [`Harness`]: 64 KiB of RAM addressed directly, an input byte
/// and an output byte per port.
pub struct SimpleBoard {
    /// The full 16-bit address space.
    pub ram: Vec<u8>,
    /// The last byte written to each output port.
    pub port_out: Vec<u8>,
    /// The byte presented on each input port.
    pub port_in: Vec<u8>,
}

impl SimpleBoard {
    /// The three backing vectors cover the whole address space and all 256
    /// ports.
    pub open spec fn wf(&self) -> bool {
        &&& self.ram@.len() == 0x10000
        &&& self.port_out@.len() == 0x100
        &&& self.port_in@.len() == 0x100
    }

    /// A board with all memory and ports zeroed.
    pub fn new() -> (r: SimpleBoard)
        ensures
            r.wf(),
            forall|i: int| 0 <= i < 0x10000 ==> r.ram@[i] == 0u8,
            forall|i: int| 0 <= i < 0x100 ==> r.port_out@[i] == 0u8,
            forall|i: int| 0 <= i < 0x100 ==> r.port_in@[i] == 0u8,
    {
        SimpleBoard { ram: vec![0u8; 0x10000], port_out: vec![0u8; 0x100], port_in: vec![0u8; 0x100] }
    }

    /// The byte in RAM at `addr` (zero when the board is malformed).
    pub fn get(&self, addr: u16) -> (r: u8)
        ensures
            self.wf() ==> r == self.ram@[addr as int],
    {
        if (addr as usize) < self.ram.len() {
            self.ram[addr as usize]
        } else {
            0
        }
    }

    /// Stores a byte in RAM at `addr` (no effect when the board is
    /// malformed).
    pub fn set(&mut self, addr: u16, value: u8)
        ensures
            old(self).wf() ==> final(self).ram@ == old(self).ram@.update(addr as int, value),
            final(self).wf() == old(self).wf(),
            final(self).port_out == old(self).port_out,
            final(self).port_in == old(self).port_in,
    {
        if (addr as usize) < self.ram.len() {
            self.ram.set(addr as usize, value);
        }
    }
}

impl Default for SimpleBoard {
    /// The same zeroed board as [`SimpleBoard::new`].
    fn default() -> (r: SimpleBoard)
        ensures
            r.wf(),
            forall|i: int| 0 <= i < 0x10000 ==> r.ram@[i] == 0u8,
            forall|i: int| 0 <= i < 0x100 ==> r.port_out@[i] == 0u8,
            forall|i: int| 0 <= i < 0x100 ==> r.port_in@[i] == 0u8,
    {
        SimpleBoard::new()
    }
}

impl Harness for SimpleBoard {
    fn read(&self, from: u16) -> u8 {
        self.get(from)
    }

    fn read_word(&self, from: u16) -> u16 {
        let lo = self.get(from);
        let hi = self.get(from.wrapping_add(1));
        lo as u16 + 256 * (hi as u16)
    }

    fn write(&mut self, to: u16, value: u8) {
        self.set(to, value);
    }

    fn write_word(&mut self, to: u16, value: u16) {
        self.set(to, (value % 256) as u8);
        self.set(to.wrapping_add(1), (value / 256) as u8);
    }

    fn input(&mut self, port: u8) -> u8 {
        if (port as usize) < self.port_in.len() {
            self.port_in[port as usize]
        } else {
            0
        }
    }

    fn output(&mut self, port: u8, value: u8) {
        if (port as usize) < self.port_out.len() {
            self.port_out.set(port as usize, value);
        }
    }
}

} // verus!
