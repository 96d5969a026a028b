//! The machine as a mathematical value, and what each instruction does to it.
//!
//! A `Machine` is the register file and the memory of an `LC3`, seen as
//! sequences of words. Each operation of the instruction set is a function
//! from the machine before to the machine after, written with the fields of
//! `decode` and wrapping arithmetic on integers. Every handler of the engine
//! promises the effect that the function of its operation describes here.
//!
//! All handlers assume that the program counter was already advanced past
//! the instruction they execute: a PC-relative offset counts from the word
//! that follows the instruction.

use vstd::prelude::*;

use crate::decode::{
    dr, imm5, immediate_mode, nzp, offset11, offset6, offset9, relative_mode, sr1, sr2,
    trap_vector, wrap,
};
use crate::memory::Store;
use crate::{FL, MR, OP, R};

verus! {

/// Why an instruction word could not be executed.
#[derive(Clone, Copy, Debug, PartialEq, Eq, Structural)]
pub enum DecodeGap {
    /// The word selects RTI, which is privileged.
    Privileged,
    /// The word selects the reserved operation.
    Reserved,
    /// The word is a TRAP whose vector, given here, has no routine: its
    /// entry in the trap-vector table is zero.
    UnwiredTrap(u16),
}

/// What a handler reports: success, or the gap it met.
pub open spec fn outcome(gap: Option<DecodeGap>) -> Result<(), DecodeGap> {
    match gap {
        Some(gap) => Err(gap),
        None => Ok(()),
    }
}

/// What an `LC3` holds, as a mathematical value.
pub struct Machine {
    /// The register file: R0 to R7, then PC, then COND.
    pub regs: Seq<u16>,
    /// The memory and its keyboard.
    pub memory: Store,
}

impl Machine {
    /// Ten registers, and a cell for every address.
    pub open spec fn wf(self) -> bool {
        self.regs.len() == 10 && self.memory.wf()
    }

    /// The machine at reset: every register and every cell zero, but for the
    /// program counter, which points at 0x3000.
    pub open spec fn reset() -> Machine {
        Machine { regs: seq![0u16, 0, 0, 0, 0, 0, 0, 0, 0x3000, 0], memory: Store::zeroed() }
    }

    /// The program counter.
    pub open spec fn pc(self) -> u16 {
        self.regs[R::PC.index() as int]
    }

    /// The condition register.
    pub open spec fn cond(self) -> u16 {
        self.regs[R::COND.index() as int]
    }

    /// Whether the condition register holds exactly one flag.
    pub open spec fn flagged(self) -> bool {
        FL::of_bits(self.cond()) is Some
    }

    /// The machine with `value` in register `r`.
    pub open spec fn set_reg(self, r: int, value: u16) -> Machine {
        Machine { regs: self.regs.update(r, value), memory: self.memory }
    }

    /// The machine with `value` in the program counter.
    pub open spec fn set_pc(self, value: u16) -> Machine {
        self.set_reg(R::PC.index() as int, value)
    }

    /// The machine with the condition register set to the flag that
    /// classifies what register `r` holds.
    pub open spec fn set_flags(self, r: int) -> Machine {
        self.set_reg(R::COND.index() as int, FL::of(self.regs[r]).bits())
    }

    /// The machine after an instruction has put `value` in register `r`: the
    /// register holds it and the condition register classifies it.
    pub open spec fn load(self, r: int, value: u16) -> Machine {
        self.set_reg(r, value).set_flags(r)
    }

    /// The word that a read of `address` returns.
    pub open spec fn read(self, address: int) -> u16 {
        self.memory.read(address)
    }

    /// The machine after a read of `address`.
    pub open spec fn after_read(self, address: int) -> Machine {
        Machine { regs: self.regs, memory: self.memory.after_read(address) }
    }

    /// The machine after `value` was written to `address`.
    pub open spec fn write(self, address: int, value: u16) -> Machine {
        Machine { regs: self.regs, memory: self.memory.write(address, value) }
    }

    /// The machine with `key` waiting at the keyboard.
    pub open spec fn with_key(self, key: u16) -> Machine {
        Machine { regs: self.regs, memory: Store { cells: self.memory.cells, key } }
    }

    /// The address that lies `offset` words from the program counter.
    pub open spec fn pc_relative(self, offset: int) -> u16 {
        wrap(self.pc() + offset)
    }

    /// ADD: DR = SR1 + (imm5 or SR2), modulo 2^16; sets the flags.
    pub open spec fn op_add(self, instruction: u16) -> Machine {
        let operand = if immediate_mode(instruction) {
            imm5(instruction)
        } else {
            self.regs[sr2(instruction)] as int
        };
        self.load(dr(instruction), wrap(self.regs[sr1(instruction)] + operand))
    }

    /// AND: DR = SR1 & (imm5 or SR2), bit by bit, the immediate taken as the
    /// word that stands for it; sets the flags.
    pub open spec fn op_and(self, instruction: u16) -> Machine {
        let operand = if immediate_mode(instruction) {
            wrap(imm5(instruction))
        } else {
            self.regs[sr2(instruction)]
        };
        self.load(dr(instruction), self.regs[sr1(instruction)] & operand)
    }

    /// NOT: DR = the bitwise complement of SR; sets the flags.
    pub open spec fn op_not(self, instruction: u16) -> Machine {
        self.load(dr(instruction), !self.regs[sr1(instruction)])
    }

    /// Whether a branch is taken: whether its condition mask and the
    /// condition register have a bit in common.
    pub open spec fn branches(self, instruction: u16) -> bool {
        nzp(instruction) & self.cond() != 0
    }

    /// BR: PC += offset9 if the branch is taken.
    pub open spec fn op_br(self, instruction: u16) -> Machine {
        if self.branches(instruction) {
            self.set_pc(self.pc_relative(offset9(instruction)))
        } else {
            self
        }
    }

    /// JMP: PC = BaseR.
    pub open spec fn op_jmp(self, instruction: u16) -> Machine {
        self.set_pc(self.regs[sr1(instruction)])
    }

    /// JSR and JSRR: R7 = PC, then PC += offset11 or PC = BaseR. The base
    /// register is read after the link was stored, so a jump through R7
    /// leaves the program counter where it was.
    pub open spec fn op_jsr(self, instruction: u16) -> Machine {
        let linked = self.set_reg(R::R7.index() as int, self.pc());
        if relative_mode(instruction) {
            linked.set_pc(self.pc_relative(offset11(instruction)))
        } else {
            linked.set_pc(linked.regs[sr1(instruction)])
        }
    }

    /// LD: DR = memory[PC + offset9]; sets the flags.
    pub open spec fn op_ld(self, instruction: u16) -> Machine {
        let address = self.pc_relative(offset9(instruction)) as int;
        self.after_read(address).load(dr(instruction), self.read(address))
    }

    /// LDI: DR = memory[memory[PC + offset9]]; sets the flags.
    pub open spec fn op_ldi(self, instruction: u16) -> Machine {
        let address = self.pc_relative(offset9(instruction)) as int;
        let pointer = self.read(address) as int;
        let pointed = self.after_read(address);
        pointed.after_read(pointer).load(dr(instruction), pointed.read(pointer))
    }

    /// LDR: DR = memory[BaseR + offset6]; sets the flags.
    pub open spec fn op_ldr(self, instruction: u16) -> Machine {
        let address = wrap(self.regs[sr1(instruction)] + offset6(instruction)) as int;
        self.after_read(address).load(dr(instruction), self.read(address))
    }

    /// LEA: DR = PC + offset9, the address itself; sets the flags.
    pub open spec fn op_lea(self, instruction: u16) -> Machine {
        self.load(dr(instruction), self.pc_relative(offset9(instruction)))
    }

    /// ST: memory[PC + offset9] = SR.
    pub open spec fn op_st(self, instruction: u16) -> Machine {
        self.write(self.pc_relative(offset9(instruction)) as int, self.regs[dr(instruction)])
    }

    /// STI: memory[memory[PC + offset9]] = SR.
    pub open spec fn op_sti(self, instruction: u16) -> Machine {
        let address = self.pc_relative(offset9(instruction)) as int;
        self.after_read(address).write(self.read(address) as int, self.regs[dr(instruction)])
    }

    /// STR: memory[BaseR + offset6] = SR.
    pub open spec fn op_str(self, instruction: u16) -> Machine {
        self.write(
            wrap(self.regs[sr1(instruction)] + offset6(instruction)) as int,
            self.regs[dr(instruction)],
        )
    }

    /// The entry of the trap-vector table that a TRAP selects: the address of
    /// its routine, or zero when the vector was never wired to one.
    pub open spec fn trap_target(self, instruction: u16) -> u16 {
        self.read(trap_vector(instruction))
    }

    /// Whether the vector of a TRAP has no routine.
    pub open spec fn unwired(self, instruction: u16) -> bool {
        self.trap_target(instruction) == 0
    }

    /// TRAP: R7 = PC, then PC = the routine's address from the table. Where
    /// the vector has no routine nothing happens.
    pub open spec fn op_trap(self, instruction: u16) -> Machine {
        if self.unwired(instruction) {
            self
        } else {
            self.set_reg(R::R7.index() as int, self.pc()).set_pc(self.trap_target(instruction))
        }
    }

    /// The reason, if any, for which a TRAP cannot be executed.
    pub open spec fn trap_gap(self, instruction: u16) -> Option<DecodeGap> {
        if self.unwired(instruction) {
            Some(DecodeGap::UnwiredTrap(trap_vector(instruction) as u16))
        } else {
            None
        }
    }

    /// The reason, if any, for which an instruction word cannot be executed.
    pub open spec fn gap(self, instruction: u16) -> Option<DecodeGap> {
        match OP::of(instruction) {
            OP::RTI => Some(DecodeGap::Privileged),
            OP::RES => Some(DecodeGap::Reserved),
            OP::TRAP => self.trap_gap(instruction),
            _ => None,
        }
    }

    /// The machine after an instruction word was dispatched: the effect of
    /// the operation it selects, or no effect at all where there is a gap.
    pub open spec fn execute(self, instruction: u16) -> Machine {
        match OP::of(instruction) {
            OP::BR => self.op_br(instruction),
            OP::ADD => self.op_add(instruction),
            OP::LD => self.op_ld(instruction),
            OP::ST => self.op_st(instruction),
            OP::JSR => self.op_jsr(instruction),
            OP::AND => self.op_and(instruction),
            OP::LDR => self.op_ldr(instruction),
            OP::STR => self.op_str(instruction),
            OP::RTI => self,
            OP::NOT => self.op_not(instruction),
            OP::LDI => self.op_ldi(instruction),
            OP::STI => self.op_sti(instruction),
            OP::JMP => self.op_jmp(instruction),
            OP::RES => self,
            OP::LEA => self.op_lea(instruction),
            OP::TRAP => self.op_trap(instruction),
        }
    }

    /// The instruction word that the next step fetches.
    pub open spec fn fetch(self) -> u16 {
        self.read(self.pc() as int)
    }

    /// The machine after the fetch: the word at PC was read and PC points at
    /// the word that follows, wrapping from the last address to the first.
    pub open spec fn fetched(self) -> Machine {
        self.after_read(self.pc() as int).set_pc(wrap(self.pc() + 1))
    }

    /// The machine after one step: fetch, advance PC, dispatch.
    pub open spec fn step(self) -> Machine {
        self.fetched().execute(self.fetch())
    }

    /// The reason, if any, for which the next step cannot execute the word
    /// it fetches.
    pub open spec fn step_gap(self) -> Option<DecodeGap> {
        self.fetched().gap(self.fetch())
    }

    /// Whether executing `instruction` reads the keyboard status register,
    /// and so asks the keyboard for a key.
    pub open spec fn polls(self, instruction: u16) -> bool {
        let kbsr = MR::KBSR.address() as int;
        match OP::of(instruction) {
            OP::LD => self.pc_relative(offset9(instruction)) == kbsr,
            OP::LDI => {
                let address = self.pc_relative(offset9(instruction)) as int;
                address == kbsr || self.memory.cells[address] == kbsr
            },
            OP::LDR => wrap(self.regs[sr1(instruction)] + offset6(instruction)) == kbsr,
            OP::STI => self.pc_relative(offset9(instruction)) == kbsr,
            _ => false,
        }
    }

    /// Whether the next step reads the keyboard status register, in its
    /// fetch or in the instruction it executes.
    pub open spec fn step_polls(self) -> bool {
        self.pc() == MR::KBSR.address() || self.fetched().polls(self.fetch())
    }
}

} // verus!
