//! The 65536 words of memory, and the keyboard that appears in two of them.
//!
//! Reading the keyboard status register asks the keyboard for a key. The
//! memory does no input of its own: whoever drives the machine polls the
//! terminal and leaves the key code in `Memory::keyboard`, where the next read
//! of the status register picks it up. A code of 0 means that no key arrived.

use vstd::prelude::*;

use crate::{MR, U16_MAX};

verus! {

/// What a `Memory` holds, as a mathematical value.
pub struct Store {
    /// The cells, indexed by address.
    pub cells: Seq<u16>,
    /// The key code that waits for the next read of the status register; 0
    /// when none does.
    pub key: u16,
}

impl Store {
    /// Every address has its cell.
    pub open spec fn wf(self) -> bool {
        self.cells.len() == U16_MAX
    }

    /// The empty memory of a machine at reset.
    pub open spec fn zeroed() -> Store {
        Store { cells: Seq::new(U16_MAX as nat, |a: int| 0u16), key: 0 }
    }

    /// The store after the keyboard was asked for a key. A waiting key sets
    /// the ready bit of the status register and appears in the data register;
    /// without one the status register is cleared. Either way nothing waits
    /// afterwards.
    pub open spec fn polled(self) -> Store {
        if self.key != 0 {
            Store {
                cells: self.cells.update(MR::KBSR.address() as int, 0x8000u16).update(
                    MR::KBDR.address() as int,
                    self.key,
                ),
                key: 0,
            }
        } else {
            Store { cells: self.cells.update(MR::KBSR.address() as int, 0u16), key: 0 }
        }
    }

    /// The store after a read of `address`: polled when the address is the
    /// keyboard status register, untouched otherwise.
    pub open spec fn after_read(self, address: int) -> Store {
        if address == MR::KBSR.address() {
            self.polled()
        } else {
            self
        }
    }

    /// The word that a read of `address` returns: the cell as it is after the
    /// read's own effect.
    pub open spec fn read(self, address: int) -> u16 {
        self.after_read(address).cells[address]
    }

    /// The store after `value` was written to `address`.
    pub open spec fn write(self, address: int, value: u16) -> Store {
        Store { cells: self.cells.update(address, value), key: self.key }
    }
}

/// The memory of the machine.
pub struct Memory {
    /// The cells, indexed by address.
    pub contents: [u16; U16_MAX],
    /// The key code that the last poll of the terminal delivered and no read
    /// of the keyboard status register has consumed yet; 0 when there is none.
    pub keyboard: u16,
}

impl View for Memory {
    type V = Store;

    open spec fn view(&self) -> Store {
        Store { cells: self.contents@, key: self.keyboard }
    }
}

impl Memory {
    /// A memory of zeroes, with no key waiting.
    pub fn new() -> (memory: Memory)
        ensures
            memory@ == Store::zeroed(),
    {
        let memory = Memory { contents: [0; U16_MAX], keyboard: 0 };
        assert(memory@.cells =~= Store::zeroed().cells);
        memory
    }

    /// Reads the word at `address`. A read of the keyboard status register
    /// first takes the waiting key, if any, into the two keyboard registers.
    pub fn get(&mut self, address: usize) -> (value: u16)
        requires
            address < U16_MAX,
        ensures
            value == old(self)@.read(address as int),
            final(self)@ == old(self)@.after_read(address as int),
    {
        let value = *self.getref(address);
        assert(self@.cells =~= old(self)@.after_read(address as int).cells);
        value
    }

    /// Hands out the cell at `address` for reading or writing, after the
    /// effect that a read of that address has.
    pub fn getref(&mut self, address: usize) -> (cell: &mut u16)
        requires
            address < U16_MAX,
        ensures
            *cell == old(self)@.read(address as int),
            final(self)@ == old(self)@.after_read(address as int).write(
                address as int,
                *final(cell),
            ),
    {
        if address == MR::KBSR.address() {
            let key = self.keyboard;
            self.keyboard = 0;
            if key != 0 {
                self.contents[MR::KBSR.address()] = 0x8000;
                self.contents[MR::KBDR.address()] = key;
            } else {
                self.contents[MR::KBSR.address()] = 0;
            }
        }
        &mut self.contents[address]
    }

    /// Stores `to` at `address`. The keyboard registers are stored to like
    /// any other cell.
    pub fn set(&mut self, address: usize, to: u16)
        requires
            address < U16_MAX,
        ensures
            final(self)@ == old(self)@.write(address as int, to),
    {
        self.contents[address] = to;
    }
}

} // verus!
