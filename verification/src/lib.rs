//! An interpreter core for the LC-3, a 16-bit teaching architecture: eight
//! general registers, a program counter, a condition register and 65536 words
//! of memory, two of which belong to the keyboard.
//!
//! The crate root holds the closed sets of names the architecture speaks of
//! (registers, operations, condition flags, device registers) with their
//! numeric encodings, and the sign-extension helpers every instruction uses.

use vstd::prelude::*;

pub mod decode;
pub mod laws;
pub mod lc3;
pub mod machine;
pub mod memory;

pub use lc3::LC3;
pub use machine::DecodeGap;

verus! {

/// Number of values a machine word can take, and number of memory cells.
pub const U16_MAX: usize = 65536;

/// The cells of the register file, in the order in which they are stored.
#[derive(Clone, Copy, Debug, PartialEq, Eq, Structural)]
pub enum R {
    R0,
    R1,
    R2,
    R3,
    R4,
    R5,
    R6,
    /// By convention the link register: subroutine calls leave the return
    /// address here.
    R7,
    /// The program counter.
    PC,
    /// The condition register.
    COND,
}

impl R {
    /// Position of the register in the register file.
    pub open spec fn spec_index(self) -> usize {
        match self {
            R::R0 => 0,
            R::R1 => 1,
            R::R2 => 2,
            R::R3 => 3,
            R::R4 => 4,
            R::R5 => 5,
            R::R6 => 6,
            R::R7 => 7,
            R::PC => 8,
            R::COND => 9,
        }
    }

    /// Position of the register in the register file.
    #[verifier::when_used_as_spec(spec_index)]
    pub fn index(self) -> (index: usize)
        ensures
            index == self.spec_index(),
            index < 10,
    {
        match self {
            R::R0 => 0,
            R::R1 => 1,
            R::R2 => 2,
            R::R3 => 3,
            R::R4 => 4,
            R::R5 => 5,
            R::R6 => 6,
            R::R7 => 7,
            R::PC => 8,
            R::COND => 9,
        }
    }
}

/// The sixteen operations, in the order of their codes.
#[derive(Clone, Copy, Debug, PartialEq, Eq, Structural)]
pub enum OP {
    BR,
    ADD,
    LD,
    ST,
    JSR,
    AND,
    LDR,
    STR,
    RTI,
    NOT,
    LDI,
    STI,
    JMP,
    RES,
    LEA,
    TRAP,
}

impl OP {
    /// The four-bit code of the operation.
    pub open spec fn spec_code(self) -> u16 {
        match self {
            OP::BR => 0,
            OP::ADD => 1,
            OP::LD => 2,
            OP::ST => 3,
            OP::JSR => 4,
            OP::AND => 5,
            OP::LDR => 6,
            OP::STR => 7,
            OP::RTI => 8,
            OP::NOT => 9,
            OP::LDI => 10,
            OP::STI => 11,
            OP::JMP => 12,
            OP::RES => 13,
            OP::LEA => 14,
            OP::TRAP => 15,
        }
    }

    /// The operation that an instruction word selects: the one whose code is
    /// in the word's bits 15..12.
    pub open spec fn of(instruction: u16) -> OP {
        let code = decode::opcode(instruction);
        if code == 0 {
            OP::BR
        } else if code == 1 {
            OP::ADD
        } else if code == 2 {
            OP::LD
        } else if code == 3 {
            OP::ST
        } else if code == 4 {
            OP::JSR
        } else if code == 5 {
            OP::AND
        } else if code == 6 {
            OP::LDR
        } else if code == 7 {
            OP::STR
        } else if code == 8 {
            OP::RTI
        } else if code == 9 {
            OP::NOT
        } else if code == 10 {
            OP::LDI
        } else if code == 11 {
            OP::STI
        } else if code == 12 {
            OP::JMP
        } else if code == 13 {
            OP::RES
        } else if code == 14 {
            OP::LEA
        } else {
            OP::TRAP
        }
    }

    /// The four-bit code of the operation.
    #[verifier::when_used_as_spec(spec_code)]
    pub fn code(self) -> (code: u16)
        ensures
            code == self.spec_code(),
            code < 16,
    {
        match self {
            OP::BR => 0,
            OP::ADD => 1,
            OP::LD => 2,
            OP::ST => 3,
            OP::JSR => 4,
            OP::AND => 5,
            OP::LDR => 6,
            OP::STR => 7,
            OP::RTI => 8,
            OP::NOT => 9,
            OP::LDI => 10,
            OP::STI => 11,
            OP::JMP => 12,
            OP::RES => 13,
            OP::LEA => 14,
            OP::TRAP => 15,
        }
    }

    /// Reads the operation out of an instruction word. Every word selects
    /// one: the result's code is the word's top four bits.
    pub fn decode(instruction: u16) -> (op: OP)
        ensures
            op == OP::of(instruction),
            op.spec_code() == decode::opcode(instruction),
    {
        proof {
            decode::lemma_fields(instruction);
        }
        let code: u16 = (instruction >> 12) & 0xF;
        match code {
            0 => OP::BR,
            1 => OP::ADD,
            2 => OP::LD,
            3 => OP::ST,
            4 => OP::JSR,
            5 => OP::AND,
            6 => OP::LDR,
            7 => OP::STR,
            8 => OP::RTI,
            9 => OP::NOT,
            10 => OP::LDI,
            11 => OP::STI,
            12 => OP::JMP,
            13 => OP::RES,
            14 => OP::LEA,
            _ => OP::TRAP,
        }
    }
}

/// The condition flags. The condition register holds the bit pattern of
/// exactly one of them once an instruction has set it.
#[derive(Clone, Copy, Debug, PartialEq, Eq, Structural)]
pub enum FL {
    /// The last value written was positive.
    POS,
    /// The last value written was zero.
    ZRO,
    /// The last value written was negative.
    NEG,
}

impl FL {
    /// The bit pattern that stands for the flag in the condition register and
    /// in a branch's condition mask.
    pub open spec fn spec_bits(self) -> u16 {
        match self {
            FL::POS => 1,
            FL::ZRO => 2,
            FL::NEG => 4,
        }
    }

    /// The flag that classifies a register value: zero, negative when bit 15
    /// is set, positive otherwise.
    pub open spec fn of(value: u16) -> FL {
        if value == 0 {
            FL::ZRO
        } else if bit(value, 15) {
            FL::NEG
        } else {
            FL::POS
        }
    }

    /// The flag whose bit pattern is `cond`, if there is one.
    pub open spec fn of_bits(cond: u16) -> Option<FL> {
        if cond == 1 {
            Some(FL::POS)
        } else if cond == 2 {
            Some(FL::ZRO)
        } else if cond == 4 {
            Some(FL::NEG)
        } else {
            None
        }
    }

    /// The bit pattern that stands for the flag.
    #[verifier::when_used_as_spec(spec_bits)]
    pub fn bits(self) -> (bits: u16)
        ensures
            bits == self.spec_bits(),
    {
        match self {
            FL::POS => 1,
            FL::ZRO => 2,
            FL::NEG => 4,
        }
    }

    /// Reads a flag back from its bit pattern. Any word that is not the
    /// pattern of exactly one flag is reported as a corrupted condition
    /// register.
    pub fn from_bits(cond: u16) -> (flag: Result<FL, CorruptCond>)
        ensures
            flag == FL::spec_from_bits(cond),
    {
        match cond {
            1 => Ok(FL::POS),
            2 => Ok(FL::ZRO),
            4 => Ok(FL::NEG),
            _ => Err(CorruptCond { cond }),
        }
    }

    /// What `from_bits` returns: the flag of `of_bits`, or the offending word.
    pub open spec fn spec_from_bits(cond: u16) -> Result<FL, CorruptCond> {
        match FL::of_bits(cond) {
            Some(flag) => Ok(flag),
            None => Err(CorruptCond { cond }),
        }
    }
}

/// The condition register held a word that is the pattern of no flag.
#[derive(Clone, Copy, Debug, PartialEq, Eq, Structural)]
pub struct CorruptCond {
    /// The word found in the condition register.
    pub cond: u16,
}

impl From<u16> for FL {
    /// Classifies a register value.
    fn from(register_val: u16) -> (flag: FL)
        ensures
            flag == FL::of(register_val),
    {
        if register_val == 0 {
            FL::ZRO
        } else if is_negative_u16(register_val) {
            FL::NEG
        } else {
            FL::POS
        }
    }
}

impl vstd::std_specs::convert::FromSpecImpl<u16> for FL {
    open spec fn obeys_from_spec() -> bool {
        true
    }

    open spec fn from_spec(register_val: u16) -> FL {
        FL::of(register_val)
    }
}

/// The memory-mapped device registers.
#[derive(Clone, Copy, Debug, PartialEq, Eq, Structural)]
pub enum MR {
    /// Keyboard status: bit 15 is set when a key is ready.
    KBSR,
    /// Keyboard data: the code of the key that is ready.
    KBDR,
}

impl MR {
    /// The address at which the device register appears in memory.
    pub open spec fn spec_address(self) -> usize {
        match self {
            MR::KBSR => 0xFE00,
            MR::KBDR => 0xFE02,
        }
    }

    /// The address at which the device register appears in memory.
    #[verifier::when_used_as_spec(spec_address)]
    pub fn address(self) -> (address: usize)
        ensures
            address == self.spec_address(),
            address < U16_MAX,
    {
        match self {
            MR::KBSR => 0xFE00,
            MR::KBDR => 0xFE02,
        }
    }
}

/// Whether bit `index` of `x` is set, bit 0 being the least significant.
pub open spec fn bit(x: u16, index: u16) -> bool {
    (x >> index) & 1 == 1
}

/// The word whose bits `bit_count..16` are set and whose lower bits are clear.
pub open spec fn high_mask(bit_count: u16) -> u16 {
    if bit_count < 16 {
        0xFFFFu16 << bit_count
    } else {
        0
    }
}

/// The word whose bits `0..bit_count` are set and whose higher bits are clear.
pub open spec fn low_mask(bit_count: u16) -> u16 {
    !high_mask(bit_count)
}

/// `x` with every bit from `bit_count` upwards set.
pub open spec fn spec_complement(x: u16, bit_count: u16) -> u16 {
    x | high_mask(bit_count)
}

/// A `bit_count`-bit two's-complement field widened to sixteen bits: the bits
/// above the field become copies of the field's sign bit, bit `bit_count - 1`.
pub open spec fn spec_sign_extend(x: u16, bit_count: u16) -> u16 {
    if bit(x, (bit_count - 1) as u16) {
        spec_complement(x, bit_count)
    } else {
        x
    }
}

/// Tells whether a `bit_count`-bit field is negative, that is whether its
/// sign bit, bit `bit_count - 1`, is set. Only that bit is looked at.
pub fn is_negative(x: u16, bit_count: u16) -> (negative: bool)
    requires
        1 <= bit_count <= 16,
    ensures
        negative == bit(x, (bit_count - 1) as u16),
{
    (x >> (bit_count - 1)) & 1 == 1
}

/// Sets every bit of `x` from bit `bit_count` upwards; with `bit_count` of 16
/// or more there is no such bit and `x` comes back unchanged.
pub fn complement(x: u16, bit_count: u16) -> (filled: u16)
    ensures
        filled == spec_complement(x, bit_count),
{
    if bit_count < 16 {
        x | (0xFFFF << bit_count)
    } else {
        assert(x | 0 == x) by (bit_vector);
        x
    }
}

/// Widens a `bit_count`-bit field to sixteen bits, keeping its sign.
pub fn sign_extend(x: u16, bit_count: u16) -> (extended: u16)
    requires
        1 <= bit_count <= 16,
    ensures
        extended == spec_sign_extend(x, bit_count),
{
    if is_negative(x, bit_count) {
        complement(x, bit_count)
    } else {
        x
    }
}

/// Tells whether a whole word is negative: whether bit 15 is set.
pub fn is_negative_u16(x: u16) -> (negative: bool)
    ensures
        negative == bit(x, 15),
{
    is_negative(x, 16)
}

} // verus!
