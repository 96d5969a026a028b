//! What holds of the helpers and of the instruction set as a whole.

use vstd::arithmetic::power2::{lemma2_to64, pow2};
use vstd::bits::{lemma_u32_pow2_no_overflow, lemma_u32_shl_is_mul};
use vstd::prelude::*;

use crate::decode::{dr, offset9, relative_mode, signed, sr1};
use crate::machine::Machine;
use crate::memory::Store;
use crate::{bit, low_mask, spec_sign_extend, FL, MR, OP, R};

verus! {

/// The number that the low `bit_count` bits of `x` stand for in two's
/// complement: the bits read as an unsigned number, less 2^`bit_count` when
/// the highest of them is set.
pub open spec fn signed_value(x: u16, bit_count: u16) -> int {
    signed(x as int % pow2(bit_count as nat) as int, pow2((bit_count - 1) as nat) as int)
}

/// Sign extension of the low `bit_count` bits of a word keeps those bits,
/// fills every higher bit with a copy of the field's sign bit, and so yields
/// the word that stands for the same number as the field did. Extending the
/// result once more changes nothing.
pub proof fn lemma_sign_extend(v: u16, bit_count: u16)
    requires
        1 <= bit_count <= 16,
    ensures
        ({
            let field = v & low_mask(bit_count);
            let extended = spec_sign_extend(field, bit_count);
            &&& extended & low_mask(bit_count) == field
            &&& forall|i: u16|
                bit_count <= i < 16 ==> bit(extended, i) == bit(v, (bit_count - 1) as u16)
            &&& signed_value(extended, 16) == signed_value(v, bit_count)
            &&& spec_sign_extend(extended, bit_count) == extended
        }),
{
    let w = bit_count;
    let field = v & low_mask(w);
    let extended = spec_sign_extend(field, w);
    let whole = 1u32 << (w as u32);
    let half = 1u32 << ((w - 1) as u32);
    assert(extended & low_mask(w) == field && spec_sign_extend(extended, w) == extended)
        by (bit_vector)
        requires
            1 <= w <= 16,
            field == v & low_mask(w),
            extended == spec_sign_extend(field, w),
    ;
    assert(forall|i: u16| w <= i < 16 ==> bit(extended, i) == bit(v, (w - 1) as u16))
        by (bit_vector)
        requires
            1 <= w <= 16,
            field == v & low_mask(w),
            extended == spec_sign_extend(field, w),
    ;
    assert({
        &&& whole == 2 * half
        &&& whole <= 0x1_0000
        &&& field as u32 == (v as u32) % whole
        &&& extended as int == if field as u32 >= half {
            field + 0x1_0000 - whole
        } else {
            field as int
        }
    }) by (bit_vector)
        requires
            1 <= w <= 16,
            field == v & low_mask(w),
            extended == spec_sign_extend(field, w),
            whole == 1u32 << (w as u32),
            half == 1u32 << ((w - 1) as u32),
    ;
    lemma2_to64();
    lemma_u32_pow2_no_overflow(w as nat);
    lemma_u32_pow2_no_overflow((w - 1) as nat);
    lemma_u32_shl_is_mul(1, w as u32);
    lemma_u32_shl_is_mul(1, (w - 1) as u32);
    assert(whole == pow2(w as nat));
    assert(half == pow2((w - 1) as nat));
}

/// Every register value has exactly one flag: ZRO when it is zero, NEG when
/// bit 15 is set, POS when it is neither. Bit 15 is set in the words from
/// 0x8000 upwards, so the flag is the sign of the number that the word
/// stands for in two's complement.
pub proof fn lemma_flag_classification(v: u16)
    ensures
        FL::of(v) == FL::POS <==> v != 0 && !bit(v, 15),
        FL::of(v) == FL::ZRO <==> v == 0,
        FL::of(v) == FL::NEG <==> bit(v, 15),
        !(v == 0 && bit(v, 15)),
        bit(v, 15) <==> v >= 0x8000,
        FL::of(v) == FL::POS <==> signed_value(v, 16) > 0,
        FL::of(v) == FL::ZRO <==> signed_value(v, 16) == 0,
        FL::of(v) == FL::NEG <==> signed_value(v, 16) < 0,
{
    assert(bit(v, 15) <==> v >= 0x8000) by (bit_vector);
    lemma2_to64();
}

/// Dispatching an instruction leaves a machine with ten registers and a
/// cell for every address, and so do the fetch and the whole step.
pub proof fn lemma_stays_well_formed(m: Machine, instruction: u16)
    requires
        m.wf(),
    ensures
        m.execute(instruction).wf(),
        m.fetched().wf(),
        m.step().wf(),
{
    lemma_execute_wf(m.fetched(), m.fetch());
    lemma_execute_wf(m, instruction);
}

proof fn lemma_execute_wf(m: Machine, instruction: u16)
    requires
        m.wf(),
    ensures
        m.execute(instruction).wf(),
{
}

/// Once the condition register holds exactly one flag it does so for good:
/// no instruction, and no step, leaves it with none or with several.
pub proof fn lemma_flag_kept(m: Machine, instruction: u16)
    requires
        m.wf(),
        m.flagged(),
    ensures
        m.execute(instruction).flagged(),
        m.step().flagged(),
{
    lemma_execute_flagged(m.fetched(), m.fetch());
    lemma_execute_flagged(m, instruction);
}

proof fn lemma_execute_flagged(m: Machine, instruction: u16)
    requires
        m.wf(),
        m.flagged(),
    ensures
        m.execute(instruction).flagged(),
{
}

/// The instructions that write a general register set the flags: after any
/// of them the condition register holds the one flag that classifies the
/// value written, whatever it held before.
pub proof fn lemma_flag_set(m: Machine, instruction: u16)
    requires
        m.wf(),
        sets_flags(OP::of(instruction)),
    ensures
        m.execute(instruction).cond() == FL::of(
            m.execute(instruction).regs[dr(instruction)],
        ).bits(),
        m.execute(instruction).flagged(),
{
}

/// The other instructions leave the condition register alone.
pub proof fn lemma_flag_untouched(m: Machine, instruction: u16)
    requires
        m.wf(),
        !sets_flags(OP::of(instruction)),
    ensures
        m.execute(instruction).cond() == m.cond(),
{
}

/// The operations that set the flags.
pub open spec fn sets_flags(op: OP) -> bool {
    op == OP::ADD || op == OP::AND || op == OP::NOT || op == OP::LD || op == OP::LDI || op
        == OP::LDR || op == OP::LEA
}

/// A subroutine call leaves the way back in R7: whatever the call, R7 then
/// holds the program counter from before it, and a jump through R7 returns
/// there. A call through R7 itself goes nowhere: the link is stored before
/// the base register is read.
pub proof fn lemma_jsr_round_trip(m: Machine, call: u16, ret: u16)
    requires
        m.wf(),
        sr1(ret) == R::R7.index(),
    ensures
        m.op_jsr(call).regs[R::R7.index() as int] == m.pc(),
        m.op_jsr(call).op_jmp(ret).pc() == m.pc(),
        !relative_mode(call) && sr1(call) == R::R7.index() ==> m.op_jsr(call).pc() == m.pc(),
{
}

/// LDI follows two pointers. Where neither read is of the keyboard status
/// register, the destination receives the word whose address is stored at
/// PC + offset9, and memory is as it was.
pub proof fn lemma_ldi_double_indirection(m: Machine, instruction: u16)
    requires
        m.wf(),
        m.pc_relative(offset9(instruction)) != MR::KBSR.address(),
        m.memory.cells[m.pc_relative(offset9(instruction)) as int] != MR::KBSR.address(),
    ensures
        m.op_ldi(instruction).regs[dr(instruction)] == m.memory.cells[m.memory.cells[m.pc_relative(
            offset9(instruction),
        ) as int] as int],
        m.op_ldi(instruction).memory == m.memory,
{
}

/// An instruction that does not read the keyboard status register neither
/// sees nor consumes the key that waits at the keyboard: with any other key
/// waiting it has the same effect and meets the same gap, and the key is
/// still waiting afterwards.
pub proof fn lemma_unpolled_execute(m: Machine, instruction: u16, key: u16)
    requires
        m.wf(),
        !m.polls(instruction),
    ensures
        m.with_key(key).execute(instruction) == m.execute(instruction).with_key(key),
        m.with_key(key).gap(instruction) == m.gap(instruction),
        m.execute(instruction).memory.key == m.memory.key,
{
}

/// A step that does not read the keyboard status register neither sees nor
/// consumes the key that waits at the keyboard.
pub proof fn lemma_unpolled_step(m: Machine, key: u16)
    requires
        m.wf(),
        !m.step_polls(),
    ensures
        m.with_key(key).step() == m.step().with_key(key),
        m.with_key(key).step_gap() == m.step_gap(),
        m.step().memory.key == m.memory.key,
{
    lemma_unpolled_execute(m.fetched(), m.fetch(), key);
    assert(m.with_key(key).fetched() == m.fetched().with_key(key));
}

/// No step asks the keyboard twice. When the fetch itself reads the keyboard
/// status register, the word fetched is one that reads no memory; and the
/// word that a read of the status register returns is never the status
/// register's own address, so an LDI that finds its pointer there makes its
/// second read elsewhere.
pub proof fn lemma_single_poll(m: Machine)
    requires
        m.wf(),
    ensures
        m.pc() == MR::KBSR.address() ==> !m.fetched().polls(m.fetch()),
        m.read(MR::KBSR.address() as int) != MR::KBSR.address(),
{
    let word = m.read(MR::KBSR.address() as int);
    assert(word == 0 || word == 0x8000);
}

/// A read of the keyboard status register consumes the waiting key: the
/// status register then tells whether there was one, the data register holds
/// it if there was, and nothing waits any more.
pub proof fn lemma_poll(s: Store)
    requires
        s.wf(),
    ensures
        s.read(MR::KBSR.address() as int) == (if s.key != 0 {
            0x8000u16
        } else {
            0u16
        }),
        s.key != 0 ==> s.after_read(MR::KBSR.address() as int).cells[MR::KBDR.address() as int]
            == s.key,
        s.after_read(MR::KBSR.address() as int).key == 0,
        forall|a: int|
            0 <= a < 0x1_0000 && a != MR::KBSR.address() ==> s.after_read(a) == s && s.read(a)
                == s.cells[a],
{
}

} // verus!
