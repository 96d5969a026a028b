//! The engine: the register file and the memory, and one handler for each
//! operation.
//!
//! A handler takes the raw instruction word, reads its own fields out of it
//! and ignores the rest, bits 15..12 included. Every handler expects the
//! program counter to point at the word after the instruction; `step` sees to
//! that. What a handler does to the machine is the function of the same
//! operation in `machine`.

use vstd::prelude::*;

use crate::decode::{
    imm5, lemma_extend_imm5, lemma_extend_offset11, lemma_extend_offset6, lemma_extend_offset9,
    lemma_fields, lemma_wrapping_offset, offset11, offset6, offset9, trap_vector,
};
use crate::machine::{outcome, DecodeGap, Machine};
use crate::memory::Memory;
use crate::{sign_extend, CorruptCond, FL, MR, OP, R, U16_MAX};

verus! {

/// The whole machine.
pub struct LC3 {
    /// The memory.
    pub memory: Memory,
    /// The register file: R0 to R7, then PC, then COND.
    pub register: [u16; 10],
}

impl View for LC3 {
    type V = Machine;

    open spec fn view(&self) -> Machine {
        Machine { regs: self.register@, memory: self.memory@ }
    }
}

impl LC3 {
    /// A machine at reset: memory and registers zero, PC at 0x3000.
    pub fn new() -> (lc3: LC3)
        ensures
            lc3@ == Machine::reset(),
    {
        let lc3 = LC3 { memory: Memory::new(), register: [0, 0, 0, 0, 0, 0, 0, 0, 0x3000, 0] };
        assert(lc3@.regs =~= Machine::reset().regs);
        lc3
    }

    /// Sets the condition register to the flag that classifies the value of
    /// the given register.
    pub fn update_cond(&mut self, register: usize)
        requires
            register < 10,
        ensures
            final(self)@ == old(self)@.set_flags(register as int),
            final(self)@.flagged(),
    {
        let register_val = self.register[register];
        self.register[R::COND.index()] = FL::from(register_val).bits();
    }

    /// Reads the word at `address`, with the effect that a read of the
    /// keyboard status register has.
    pub fn get_memory(&mut self, address: usize) -> (value: u16)
        requires
            address < U16_MAX,
        ensures
            value == old(self)@.read(address as int),
            final(self)@ == old(self)@.after_read(address as int),
    {
        self.memory.get(address)
    }

    /// ADD: puts the sum of SR1 and the second operand in DR, wrapping around,
    /// and sets the flags. The second operand is the register SR2, or the
    /// signed immediate in bits 4..0 when bit 5 is set.
    pub fn add(&mut self, instruction: u16)
        ensures
            final(self)@ == old(self)@.op_add(instruction),
    {
        proof {
            lemma_fields(instruction);
            lemma_extend_imm5(instruction);
        }
        let destination_register = (instruction >> 9 & 0x7) as usize;
        let sr1 = (instruction >> 6 & 0x7) as usize;

        let immflag = instruction >> 5 & 0x1;
        let operand = if immflag == 1 {
            sign_extend(instruction & 0x1F, 5)
        } else {
            let sr2 = (instruction & 0x7) as usize;
            self.register[sr2]
        };
        proof {
            lemma_wrapping_offset(self.register[sr1 as int], imm5(instruction));
        }

        self.register[destination_register] = self.register[sr1].wrapping_add(operand);

        self.update_cond(destination_register);
    }

    /// LDI, load indirect: reads the word at PC + offset9, reads the word at
    /// the address found there, puts it in DR and sets the flags.
    pub fn ldi(&mut self, instruction: u16)
        ensures
            final(self)@ == old(self)@.op_ldi(instruction),
    {
        proof {
            lemma_fields(instruction);
            lemma_extend_offset9(instruction);
            lemma_wrapping_offset(self@.pc(), offset9(instruction));
        }
        let pcoffset = sign_extend(instruction & 0x1FF, 9);
        let destination_register = (instruction >> 9 & 0x7) as usize;

        let location = self.get_memory(
            self.register[R::PC.index()].wrapping_add(pcoffset) as usize,
        );

        self.register[destination_register] = self.get_memory(location as usize);

        self.update_cond(destination_register);
    }

    /// AND: puts the bitwise AND of SR1 and the second operand in DR and sets
    /// the flags. The second operand is chosen as in ADD.
    pub fn and(&mut self, instruction: u16)
        ensures
            final(self)@ == old(self)@.op_and(instruction),
    {
        proof {
            lemma_fields(instruction);
            lemma_extend_imm5(instruction);
        }
        let destination_register = (instruction >> 9 & 0x7) as usize;
        let sr1 = (instruction >> 6 & 0x7) as usize;

        let immflag = instruction >> 5 & 0x1;
        let operand = if immflag == 1 {
            sign_extend(instruction & 0x1F, 5)
        } else {
            let sr2 = (instruction & 0x7) as usize;
            self.register[sr2]
        };

        self.register[destination_register] = self.register[sr1] & operand;

        self.update_cond(destination_register);
    }

    /// NOT: puts the bitwise complement of SR in DR and sets the flags.
    pub fn not(&mut self, instruction: u16)
        ensures
            final(self)@ == old(self)@.op_not(instruction),
    {
        proof {
            lemma_fields(instruction);
        }
        let destination_register = (instruction >> 9 & 0x7) as usize;
        let sr1 = (instruction >> 6 & 0x7) as usize;

        self.register[destination_register] = !self.register[sr1];

        self.update_cond(destination_register);
    }

    /// BR: adds offset9 to PC, wrapping around, if the condition mask in bits
    /// 11..9 and the condition register have a bit in common.
    pub fn br(&mut self, instruction: u16)
        ensures
            final(self)@ == old(self)@.op_br(instruction),
    {
        proof {
            lemma_fields(instruction);
            lemma_extend_offset9(instruction);
            lemma_wrapping_offset(self@.pc(), offset9(instruction));
        }
        let pcoffset = sign_extend(instruction & 0x1FF, 9);
        let cond_flag = instruction >> 9 & 0x7;

        if cond_flag & self.register[R::COND.index()] != 0 {
            self.register[R::PC.index()] = self.register[R::PC.index()].wrapping_add(pcoffset);
        }
    }

    /// JMP: puts the base register in PC. RET is the jump through R7.
    pub fn jmp(&mut self, instruction: u16)
        ensures
            final(self)@ == old(self)@.op_jmp(instruction),
    {
        proof {
            lemma_fields(instruction);
        }
        let base_r = (instruction >> 6 & 0x7) as usize;
        self.register[R::PC.index()] = self.register[base_r];
    }

    /// JSR and JSRR: saves PC in R7, then adds offset11 to PC, wrapping
    /// around, when bit 11 is set, and puts the base register in PC when it
    /// is clear.
    pub fn jsr(&mut self, instruction: u16)
        ensures
            final(self)@ == old(self)@.op_jsr(instruction),
    {
        proof {
            lemma_fields(instruction);
            lemma_extend_offset11(instruction);
            lemma_wrapping_offset(self@.pc(), offset11(instruction));
        }
        let flag = instruction >> 11 & 0x1;

        self.register[R::R7.index()] = self.register[R::PC.index()];

        if flag == 1 {
            let pcoffset = sign_extend(instruction & 0x7FF, 11);
            self.register[R::PC.index()] = self.register[R::PC.index()].wrapping_add(pcoffset);
        } else {
            let base_r = (instruction >> 6 & 0x7) as usize;
            self.register[R::PC.index()] = self.register[base_r];
        }
    }

    /// LD: reads the word at PC + offset9, puts it in DR and sets the flags.
    pub fn ld(&mut self, instruction: u16)
        ensures
            final(self)@ == old(self)@.op_ld(instruction),
    {
        proof {
            lemma_fields(instruction);
            lemma_extend_offset9(instruction);
            lemma_wrapping_offset(self@.pc(), offset9(instruction));
        }
        let pcoffset = sign_extend(instruction & 0x1FF, 9);
        let destination_register = (instruction >> 9 & 0x7) as usize;

        let pc_incremented = self.register[R::PC.index()].wrapping_add(pcoffset);
        self.register[destination_register] = self.get_memory(pc_incremented as usize);

        self.update_cond(destination_register);
    }

    /// LDR: reads the word at base register + offset6, puts it in DR and sets
    /// the flags.
    pub fn ldr(&mut self, instruction: u16)
        ensures
            final(self)@ == old(self)@.op_ldr(instruction),
    {
        proof {
            lemma_fields(instruction);
            lemma_extend_offset6(instruction);
        }
        let destination_register = (instruction >> 9 & 0x7) as usize;
        let base_r = (instruction >> 6 & 0x7) as usize;
        let offset = sign_extend(instruction & 0x3F, 6);
        proof {
            lemma_wrapping_offset(self.register[base_r as int], offset6(instruction));
        }

        self.register[destination_register] = self.get_memory(
            self.register[base_r].wrapping_add(offset) as usize,
        );

        self.update_cond(destination_register);
    }

    /// LEA: puts the address PC + offset9 itself in DR and sets the flags.
    pub fn lea(&mut self, instruction: u16)
        ensures
            final(self)@ == old(self)@.op_lea(instruction),
    {
        proof {
            lemma_fields(instruction);
            lemma_extend_offset9(instruction);
            lemma_wrapping_offset(self@.pc(), offset9(instruction));
        }
        let destination_register = (instruction >> 9 & 0x7) as usize;
        let pcoffset = sign_extend(instruction & 0x1FF, 9);

        let pc_incremented = self.register[R::PC.index()].wrapping_add(pcoffset);
        self.register[destination_register] = pc_incremented;

        self.update_cond(destination_register);
    }

    /// ST: stores SR at PC + offset9.
    pub fn st(&mut self, instruction: u16)
        ensures
            final(self)@ == old(self)@.op_st(instruction),
    {
        proof {
            lemma_fields(instruction);
            lemma_extend_offset9(instruction);
            lemma_wrapping_offset(self@.pc(), offset9(instruction));
        }
        let sr = (instruction >> 9 & 0x7) as usize;
        let pcoffset = sign_extend(instruction & 0x1FF, 9);
        let pc_incremented = self.register[R::PC.index()].wrapping_add(pcoffset);

        self.memory.set(pc_incremented as usize, self.register[sr]);
    }

    /// STI, store indirect: reads the word at PC + offset9 and stores SR at
    /// the address found there.
    pub fn sti(&mut self, instruction: u16)
        ensures
            final(self)@ == old(self)@.op_sti(instruction),
    {
        proof {
            lemma_fields(instruction);
            lemma_extend_offset9(instruction);
            lemma_wrapping_offset(self@.pc(), offset9(instruction));
        }
        let sr = (instruction >> 9 & 0x7) as usize;
        let pcoffset = sign_extend(instruction & 0x1FF, 9);
        let pc_incremented = self.register[R::PC.index()].wrapping_add(pcoffset);

        let location = self.get_memory(pc_incremented as usize);
        self.memory.set(location as usize, self.register[sr]);
    }

    /// STR: stores SR at base register + offset6.
    pub fn str(&mut self, instruction: u16)
        ensures
            final(self)@ == old(self)@.op_str(instruction),
    {
        proof {
            lemma_fields(instruction);
            lemma_extend_offset6(instruction);
        }
        let sr = (instruction >> 9 & 0x7) as usize;
        let base_r = (instruction >> 6 & 0x7) as usize;
        let offset = sign_extend(instruction & 0x3F, 6);
        proof {
            lemma_wrapping_offset(self.register[base_r as int], offset6(instruction));
        }

        self.memory.set(self.register[base_r].wrapping_add(offset) as usize, self.register[sr]);
    }

    /// TRAP: saves PC in R7 and jumps to the routine of the vector in bits
    /// 7..0. The vector's entry in the trap-vector table, the first 256 words
    /// of memory, is the address of its routine; a vector whose entry is zero
    /// has none, which is reported and leaves the machine as it was.
    pub fn trap(&mut self, instruction: u16) -> (done: Result<(), DecodeGap>)
        ensures
            final(self)@ == old(self)@.op_trap(instruction),
            done == outcome(old(self)@.trap_gap(instruction)),
    {
        proof {
            lemma_fields(instruction);
        }
        let vector = instruction & 0xFF;
        let routine = self.get_memory(vector as usize);
        if routine == 0 {
            return Err(DecodeGap::UnwiredTrap(vector));
        }
        self.register[R::R7.index()] = self.register[R::PC.index()];
        self.register[R::PC.index()] = routine;
        Ok(())
    }

    /// Dispatches an instruction word to the handler of the operation it
    /// selects. RTI, the reserved operation and a TRAP without a routine are
    /// reported and leave the machine as it was.
    pub fn execute(&mut self, instruction: u16) -> (done: Result<(), DecodeGap>)
        ensures
            final(self)@ == old(self)@.execute(instruction),
            done == outcome(old(self)@.gap(instruction)),
    {
        match OP::decode(instruction) {
            OP::BR => self.br(instruction),
            OP::ADD => self.add(instruction),
            OP::LD => self.ld(instruction),
            OP::ST => self.st(instruction),
            OP::JSR => self.jsr(instruction),
            OP::AND => self.and(instruction),
            OP::LDR => self.ldr(instruction),
            OP::STR => self.str(instruction),
            OP::RTI => {
                return Err(DecodeGap::Privileged);
            },
            OP::NOT => self.not(instruction),
            OP::LDI => self.ldi(instruction),
            OP::STI => self.sti(instruction),
            OP::JMP => self.jmp(instruction),
            OP::RES => {
                return Err(DecodeGap::Reserved);
            },
            OP::LEA => self.lea(instruction),
            OP::TRAP => {
                return self.trap(instruction);
            },
        }
        Ok(())
    }

    /// One step of the machine: fetches the word at PC, advances PC past it,
    /// and dispatches the word. Where the word cannot be executed the fetch
    /// has still happened: PC points past the word.
    pub fn step(&mut self) -> (done: Result<(), DecodeGap>)
        ensures
            final(self)@ == old(self)@.step(),
            done == outcome(old(self)@.step_gap()),
    {
        let pc = self.register[R::PC.index()];
        let instruction = self.get_memory(pc as usize);
        self.register[R::PC.index()] = pc.wrapping_add(1);
        self.execute(instruction)
    }

    /// Tells whether executing `instruction` from the present state reads
    /// the keyboard status register. It is then that a key has to be in
    /// `memory.keyboard` for the instruction to see it.
    pub fn polls(&self, instruction: u16) -> (polls: bool)
        ensures
            polls == self@.polls(instruction),
    {
        assert(self@.set_pc(self@.pc()).regs =~= self@.regs);
        self.polls_from(self.register[R::PC.index()], instruction)
    }

    /// Tells whether the next `step` reads the keyboard status register, in
    /// its fetch or in the instruction it executes.
    pub fn step_polls(&self) -> (polls: bool)
        ensures
            polls == self@.step_polls(),
    {
        let pc = self.register[R::PC.index()];
        if pc as usize == MR::KBSR.address() {
            return true;
        }
        self.polls_from(pc.wrapping_add(1), self.memory.contents[pc as usize])
    }

    /// Tells whether `instruction` reads the keyboard status register when
    /// it executes with the program counter at `pc`.
    fn polls_from(&self, pc: u16, instruction: u16) -> (polls: bool)
        ensures
            polls == self@.set_pc(pc).polls(instruction),
    {
        proof {
            lemma_fields(instruction);
            lemma_extend_offset9(instruction);
            lemma_extend_offset6(instruction);
            lemma_wrapping_offset(pc, offset9(instruction));
        }
        let kbsr = MR::KBSR.address();
        match OP::decode(instruction) {
            OP::LD | OP::STI => {
                pc.wrapping_add(sign_extend(instruction & 0x1FF, 9)) as usize == kbsr
            },
            OP::LDI => {
                let address = pc.wrapping_add(sign_extend(instruction & 0x1FF, 9)) as usize;
                address == kbsr || self.memory.contents[address] as usize == kbsr
            },
            OP::LDR => {
                let base_r = (instruction >> 6 & 0x7) as usize;
                proof {
                    lemma_wrapping_offset(self.register[base_r as int], offset6(instruction));
                }
                self.register[base_r].wrapping_add(sign_extend(instruction & 0x3F, 6)) as usize
                    == kbsr
            },
            _ => false,
        }
    }
}

impl<'a> TryFrom<&'a LC3> for FL {
    type Error = CorruptCond;

    /// Reads the flag that the machine's condition register holds.
    fn try_from(lc3: &'a LC3) -> (flag: Result<FL, CorruptCond>)
        ensures
            flag == FL::spec_from_bits(lc3@.cond()),
    {
        FL::from_bits(lc3.register[R::COND.index()])
    }
}

impl<'a> vstd::std_specs::convert::TryFromSpecImpl<&'a LC3> for FL {
    open spec fn obeys_try_from_spec() -> bool {
        true
    }

    open spec fn try_from_spec(lc3: &'a LC3) -> Result<FL, CorruptCond> {
        FL::spec_from_bits(lc3@.cond())
    }
}

} // verus!
