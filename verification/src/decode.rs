//! The fields of an instruction word, read as numbers.
//!
//! An instruction word is sixteen bits. Bits 15..12 select the operation; what
//! the lower twelve bits mean depends on it. Every field is defined here by
//! division and remainder on the word's value, so that the meaning of an
//! instruction can be stated in plain arithmetic; `lemma_fields` and the
//! `lemma_extend_*` family tie the shift-and-mask forms used by the engine to
//! these definitions.

use vstd::prelude::*;

use crate::spec_sign_extend;

verus! {

/// The number that a two's-complement field stands for: `field` is the
/// unsigned reading of its bits and `half` the weight of its sign bit.
pub open spec fn signed(field: int, half: int) -> int {
    if field >= half {
        field - 2 * half
    } else {
        field
    }
}

/// A number reduced modulo 2^16 to a machine word.
pub open spec fn wrap(n: int) -> u16 {
    (n % 0x1_0000) as u16
}

/// Bits 15..12: the operation code.
pub open spec fn opcode(instruction: u16) -> int {
    instruction as int / 0x1000
}

/// Bits 11..9: the destination register of a load or an arithmetic
/// instruction, the source register of a store.
pub open spec fn dr(instruction: u16) -> int {
    (instruction as int / 0x200) % 8
}

/// Bits 11..9 of a branch: the condition mask, one bit for each of N, Z, P.
pub open spec fn nzp(instruction: u16) -> u16 {
    ((instruction as int / 0x200) % 8) as u16
}

/// Bits 8..6: the first source register, or the base register.
pub open spec fn sr1(instruction: u16) -> int {
    (instruction as int / 0x40) % 8
}

/// Bits 2..0: the second source register.
pub open spec fn sr2(instruction: u16) -> int {
    instruction as int % 8
}

/// Bit 5: whether the second operand is the immediate field.
pub open spec fn immediate_mode(instruction: u16) -> bool {
    (instruction as int / 0x20) % 2 == 1
}

/// Bit 11: whether a subroutine jump is relative to the program counter.
pub open spec fn relative_mode(instruction: u16) -> bool {
    (instruction as int / 0x800) % 2 == 1
}

/// Bits 4..0 as a signed number, -16..=15.
pub open spec fn imm5(instruction: u16) -> int {
    signed(instruction as int % 0x20, 0x10)
}

/// Bits 5..0 as a signed number, -32..=31.
pub open spec fn offset6(instruction: u16) -> int {
    signed(instruction as int % 0x40, 0x20)
}

/// Bits 8..0 as a signed number, -256..=255.
pub open spec fn offset9(instruction: u16) -> int {
    signed(instruction as int % 0x200, 0x100)
}

/// Bits 10..0 as a signed number, -1024..=1023.
pub open spec fn offset11(instruction: u16) -> int {
    signed(instruction as int % 0x800, 0x400)
}

/// Bits 7..0: the trap vector, never negative.
pub open spec fn trap_vector(instruction: u16) -> int {
    instruction as int % 0x100
}

/// Shifting and masking an instruction word extracts the fields defined above.
pub proof fn lemma_fields(instruction: u16)
    ensures
        (instruction >> 12) & 0xF == opcode(instruction),
        (instruction >> 9) & 0x7 == dr(instruction),
        (instruction >> 9) & 0x7 == nzp(instruction),
        (instruction >> 6) & 0x7 == sr1(instruction),
        instruction & 0x7 == sr2(instruction),
        ((instruction >> 5) & 0x1 == 1) == immediate_mode(instruction),
        ((instruction >> 11) & 0x1 == 1) == relative_mode(instruction),
        instruction & 0xFF == trap_vector(instruction),
{
    let i = instruction;
    assert({
        &&& (i >> 12) & 0xF == i / 0x1000
        &&& (i >> 9) & 0x7 == (i / 0x200) % 8
        &&& (i >> 6) & 0x7 == (i / 0x40) % 8
        &&& i & 0x7 == i % 8
        &&& (i >> 5) & 0x1 == (i / 0x20) % 2
        &&& (i >> 11) & 0x1 == (i / 0x800) % 2
        &&& i & 0xFF == i % 0x100
    }) by (bit_vector);
}

/// Sign extension of the low five bits gives the word that stands for `imm5`.
pub proof fn lemma_extend_imm5(instruction: u16)
    ensures
        spec_sign_extend(instruction & 0x1F, 5) == wrap(imm5(instruction)),
{
    let i = instruction;
    assert(spec_sign_extend(i & 0x1F, 5) == if i % 0x20 >= 0x10 {
        i % 0x20 + 0xFFE0
    } else {
        (i % 0x20) as int
    }) by (bit_vector);
}

/// Sign extension of the low six bits gives the word that stands for `offset6`.
pub proof fn lemma_extend_offset6(instruction: u16)
    ensures
        spec_sign_extend(instruction & 0x3F, 6) == wrap(offset6(instruction)),
{
    let i = instruction;
    assert(spec_sign_extend(i & 0x3F, 6) == if i % 0x40 >= 0x20 {
        i % 0x40 + 0xFFC0
    } else {
        (i % 0x40) as int
    }) by (bit_vector);
}

/// Sign extension of the low nine bits gives the word that stands for `offset9`.
pub proof fn lemma_extend_offset9(instruction: u16)
    ensures
        spec_sign_extend(instruction & 0x1FF, 9) == wrap(offset9(instruction)),
{
    let i = instruction;
    assert(spec_sign_extend(i & 0x1FF, 9) == if i % 0x200 >= 0x100 {
        i % 0x200 + 0xFE00
    } else {
        (i % 0x200) as int
    }) by (bit_vector);
}

/// Sign extension of the low eleven bits gives the word that stands for
/// `offset11`.
pub proof fn lemma_extend_offset11(instruction: u16)
    ensures
        spec_sign_extend(instruction & 0x7FF, 11) == wrap(offset11(instruction)),
{
    let i = instruction;
    assert(spec_sign_extend(i & 0x7FF, 11) == if i % 0x800 >= 0x400 {
        i % 0x800 + 0xF800
    } else {
        (i % 0x800) as int
    }) by (bit_vector);
}

/// Adding a signed offset to a word and wrapping is the machine's wrapping
/// addition of the word that stands for the offset.
pub proof fn lemma_wrapping_offset(base: u16, offset: int)
    requires
        -0x8000 <= offset < 0x8000,
    ensures
        vstd::wrapping::u16_specs::wrapping_add(base, wrap(offset)) == wrap(base + offset),
{
}

} // verus!
