//! The general properties the emulator guarantees, stated and proved over
//! the machine model: what decoding consumes, how the flag recipes project
//! onto the named flags, and how the stack, branch and subroutine
//! disciplines compose.

use vstd::prelude::*;

use crate::disassembler::{byte_or_zero, decode_err, mode_len_wf, opcode_table, operands_spec, Opcode};
use crate::processor::ProcessorState;
use crate::semantics::{
    acc_get, add_carry, add_flags, add_half_carry, add_overflow, bit_of, branch_cond,
    bit16_of, branch_target, ccr_with, com_flags, cpx_flags, exec_spec, incdec_flags,
    is_relative_branch, logic_flags, neg_flags, shift_flags, sign_extend, signed_offset, sub_carry, sub_flags,
    sub_overflow, tst_flags, word_flags, wrap_add16, InstrParts, CARRY_INDEX, HALF_CARRY_INDEX,
    INTERRUPT_MASK_INDEX, NEGATIVE_INDEX, OVERFLOW_INDEX, ZERO_INDEX,
};

verus! {

/// Setting one bit of the condition-code register changes that bit alone:
/// reading bit `j` after writing bit `i` gives the written value when the
/// indices agree and the old bit otherwise.
pub proof fn lemma_ccr_with_bit(ccr: u8, i: u8, j: u8, b: bool)
    requires
        i < 8,
        j < 8,
    ensures
        bit_of(ccr_with(ccr, i, b), j) == if i == j {
            b
        } else {
            bit_of(ccr, j)
        },
{
    if b {
        assert(((ccr | (1u8 << i)) & (1u8 << j) != 0) == (if i == j {
            true
        } else {
            ccr & (1u8 << j) != 0
        })) by (bit_vector)
            requires
                i < 8,
                j < 8,
        ;
    } else {
        assert(((ccr & !(1u8 << i)) & (1u8 << j) != 0) == (if i == j {
            false
        } else {
            ccr & (1u8 << j) != 0
        })) by (bit_vector)
            requires
                i < 8,
                j < 8,
        ;
    }
}

/// The quantified form of `lemma_ccr_with_bit`, for proofs that chase a bit
/// through several flag writes at once.
pub proof fn lemma_ccr_with_bit_auto()
    ensures
        forall|ccr: u8, i: u8, j: u8, b: bool|
            i < 8 && j < 8 ==> #[trigger] bit_of(ccr_with(ccr, i, b), j) == (if i == j {
                b
            } else {
                bit_of(ccr, j)
            }),
{
    assert forall|ccr: u8, i: u8, j: u8, b: bool| i < 8 && j < 8 implies #[trigger] bit_of(
        ccr_with(ccr, i, b),
        j,
    ) == (if i == j {
        b
    } else {
        bit_of(ccr, j)
    }) by {
        lemma_ccr_with_bit(ccr, i, j, b);
    }
}

/// Decoding consumes exactly the declared instruction length: a window
/// decodes successfully precisely when its first byte has a table entry
/// whose length the window covers, and the descriptor — cycle count
/// included — is that table entry.
pub proof fn lemma_decode_consumes(data: Seq<u8>)
    ensures
        decode_err(data) is None <==> data.len() > 0 && opcode_table(data[0]) is Some
            && opcode_table(data[0])->0.instruction_length <= data.len(),
{
}

/// For every 8-bit arithmetic or logical flag recipe, the zero flag of the
/// result equals `result == 0` and the negative flag equals bit 7 of the
/// result.
pub proof fn lemma_zero_negative_flags(ccr: u8, a: u8, m: u8, r: u8, carry: bool, overflow: bool)
    ensures
        bit_of(add_flags(ccr, a, m, r), ZERO_INDEX) == (r == 0),
        bit_of(add_flags(ccr, a, m, r), NEGATIVE_INDEX) == bit_of(r, 7),
        bit_of(sub_flags(ccr, a, m, r), ZERO_INDEX) == (r == 0),
        bit_of(sub_flags(ccr, a, m, r), NEGATIVE_INDEX) == bit_of(r, 7),
        bit_of(logic_flags(ccr, r), ZERO_INDEX) == (r == 0),
        bit_of(logic_flags(ccr, r), NEGATIVE_INDEX) == bit_of(r, 7),
        bit_of(shift_flags(ccr, r, carry), ZERO_INDEX) == (r == 0),
        bit_of(shift_flags(ccr, r, carry), NEGATIVE_INDEX) == bit_of(r, 7),
        bit_of(neg_flags(ccr, r), ZERO_INDEX) == (r == 0),
        bit_of(neg_flags(ccr, r), NEGATIVE_INDEX) == bit_of(r, 7),
        bit_of(com_flags(ccr, r), ZERO_INDEX) == (r == 0),
        bit_of(com_flags(ccr, r), NEGATIVE_INDEX) == bit_of(r, 7),
        bit_of(incdec_flags(ccr, r, overflow), ZERO_INDEX) == (r == 0),
        bit_of(incdec_flags(ccr, r, overflow), NEGATIVE_INDEX) == bit_of(r, 7),
        bit_of(tst_flags(ccr, r), ZERO_INDEX) == (r == 0),
        bit_of(tst_flags(ccr, r), NEGATIVE_INDEX) == bit_of(r, 7),
{
    lemma_ccr_with_bit_auto();
}

/// The addition and subtraction recipes put exactly the documented formulas
/// into each flag, and leave the flags they do not mention alone: addition
/// leaves the interrupt mask, subtraction the interrupt mask and the
/// half-carry.
pub proof fn lemma_add_sub_flag_projection(ccr: u8, a: u8, m: u8, r: u8)
    ensures
        bit_of(add_flags(ccr, a, m, r), CARRY_INDEX) == add_carry(a, m, r),
        bit_of(add_flags(ccr, a, m, r), OVERFLOW_INDEX) == add_overflow(a, m, r),
        bit_of(add_flags(ccr, a, m, r), HALF_CARRY_INDEX) == add_half_carry(a, m, r),
        bit_of(add_flags(ccr, a, m, r), INTERRUPT_MASK_INDEX) == bit_of(ccr, INTERRUPT_MASK_INDEX),
        bit_of(sub_flags(ccr, a, m, r), CARRY_INDEX) == sub_carry(a, m, r),
        bit_of(sub_flags(ccr, a, m, r), OVERFLOW_INDEX) == sub_overflow(a, m, r),
        bit_of(sub_flags(ccr, a, m, r), HALF_CARRY_INDEX) == bit_of(ccr, HALF_CARRY_INDEX),
        bit_of(sub_flags(ccr, a, m, r), INTERRUPT_MASK_INDEX) == bit_of(ccr, INTERRUPT_MASK_INDEX),
{
    lemma_ccr_with_bit_auto();
}

/// The 16-bit recipes — index-register compare, and the 16-bit loads and
/// stores — set the negative flag from bit 15 and the zero flag from the
/// whole 16-bit value, and leave the carry alone.
pub proof fn lemma_word_flag_projection(ccr: u8, x: u16, m: u16, r: u16, v: u16)
    ensures
        bit_of(word_flags(ccr, v), ZERO_INDEX) == (v == 0),
        bit_of(word_flags(ccr, v), NEGATIVE_INDEX) == bit16_of(v, 15),
        bit_of(word_flags(ccr, v), CARRY_INDEX) == bit_of(ccr, CARRY_INDEX),
        bit_of(cpx_flags(ccr, x, m, r), ZERO_INDEX) == (r == 0),
        bit_of(cpx_flags(ccr, x, m, r), NEGATIVE_INDEX) == bit16_of(r, 15),
        bit_of(cpx_flags(ccr, x, m, r), CARRY_INDEX) == bit_of(ccr, CARRY_INDEX),
{
    lemma_ccr_with_bit_auto();
}

/// SUB and CMP with identical operands produce identical flag effects, and
/// CMP alters neither accumulator nor memory.
pub proof fn lemma_subtract_compare_agree(
    s: ProcessorState,
    mem: Seq<u8>,
    p_sub: InstrParts,
    p_cmp: InstrParts,
)
    requires
        p_sub.op == Opcode::Subtract,
        p_cmp.op == Opcode::Compare,
        p_sub.mode == p_cmp.mode,
        p_sub.len == p_cmp.len,
        p_sub.target == p_cmp.target,
        p_sub.imm8 == p_cmp.imm8,
        p_sub.imm16 == p_cmp.imm16,
    ensures
        exec_spec(s, mem, p_cmp).state.condition_code_register == exec_spec(
            s,
            mem,
            p_sub,
        ).state.condition_code_register,
        exec_spec(s, mem, p_cmp).state.accumulator_a == s.accumulator_a,
        exec_spec(s, mem, p_cmp).state.accumulator_b == s.accumulator_b,
        exec_spec(s, mem, p_cmp).mem == mem,
{
}

/// INX and DEX toggle only the zero flag — which becomes whether the new
/// index-register value is zero — and every other condition-code bit keeps
/// its old value.
pub proof fn lemma_index_step_flags(s: ProcessorState, mem: Seq<u8>, p: InstrParts, j: u8)
    requires
        p.op == Opcode::IncrementIndexRegister || p.op == Opcode::DecrementIndexRegister,
        j < 8,
        j != ZERO_INDEX,
    ensures
        bit_of(exec_spec(s, mem, p).state.condition_code_register, j) == bit_of(
            s.condition_code_register,
            j,
        ),
        bit_of(exec_spec(s, mem, p).state.condition_code_register, ZERO_INDEX) == (exec_spec(
            s,
            mem,
            p,
        ).state.index_register == 0),
{
    lemma_ccr_with_bit_auto();
}

/// Pushing an accumulator and pulling it back round-trips: the pulled byte
/// is the pushed byte and the stack pointer returns to its original value.
pub proof fn lemma_push_pull_round_trip(
    s: ProcessorState,
    mem: Seq<u8>,
    p_psh: InstrParts,
    p_pul: InstrParts,
)
    requires
        mem.len() == 65536,
        p_psh.op == Opcode::Push,
        p_pul.op == Opcode::Pop,
        p_psh.target == p_pul.target,
    ensures
        ({
            let m1 = exec_spec(s, mem, p_psh);
            let m2 = exec_spec(m1.state, m1.mem, p_pul);
            &&& acc_get(m2.state, p_pul.target) == acc_get(s, p_psh.target)
            &&& m2.state.stack_pointer == s.stack_pointer
        }),
{
}

/// A subroutine call followed by RTS leaves the program counter at the
/// instruction after the call — past the call's own bytes — and the stack
/// pointer at its pre-call value.  Holds for JSR and for BSR alike.
pub proof fn lemma_call_return_round_trip(
    s: ProcessorState,
    mem: Seq<u8>,
    p_call: InstrParts,
    p_ret: InstrParts,
)
    requires
        mem.len() == 65536,
        p_call.op == Opcode::JumpToSubroutine || p_call.op == Opcode::BranchToSubroutine,
        p_call.op == Opcode::BranchToSubroutine ==> p_call.len == 2,
        p_ret.op == Opcode::Return,
    ensures
        ({
            let m1 = exec_spec(s, mem, p_call);
            let m2 = exec_spec(m1.state, m1.mem, p_ret);
            &&& m2.state.program_counter == wrap_add16(s.program_counter, p_call.len as u16)
            &&& m2.state.stack_pointer == s.stack_pointer
        }),
{
    let ret = wrap_add16(s.program_counter, p_call.len as u16);
    assert((((ret >> 8) as u8 as u16) << 8) | ((ret & 0xff) as u8 as u16) == ret) by (bit_vector);
}

/// A relative branch moves the program counter to the branch target exactly
/// when its condition holds, and just past the two instruction bytes when
/// it does not; registers, flags and memory are untouched either way.
pub proof fn lemma_branch_discipline(s: ProcessorState, mem: Seq<u8>, p: InstrParts)
    requires
        is_relative_branch(p.op),
    ensures
        ({
            let m1 = exec_spec(s, mem, p);
            &&& m1.mem == mem
            &&& m1.state.condition_code_register == s.condition_code_register
            &&& m1.state.accumulator_a == s.accumulator_a
            &&& m1.state.accumulator_b == s.accumulator_b
            &&& m1.state.index_register == s.index_register
            &&& m1.state.stack_pointer == s.stack_pointer
            &&& branch_cond(p.op, s.condition_code_register) ==> m1.state.program_counter
                == branch_target(s.program_counter, p.imm8)
            &&& !branch_cond(p.op, s.condition_code_register) ==> m1.state.program_counter
                == wrap_add16(s.program_counter, 2)
        }),
{
}

/// The branch target in plain arithmetic: `pc + 2` plus the offset read as
/// a signed integer, reduced modulo 65,536.
pub proof fn lemma_branch_target_arithmetic(pc: u16, offset: u8)
    ensures
        branch_target(pc, offset) as int == (pc + 2 + signed_offset(offset) + 65536) % 65536,
{
    if offset >= 0x80 {
        assert(((offset as u16) | 0xFF00) == (offset as u16) + 0xFF00) by (bit_vector)
            requires
                offset >= 0x80,
        ;
    }
}

/// Every opcode-table entry respects the mode and length rules.
pub proof fn lemma_table_mode_len(b: u8)
    ensures
        opcode_table(b) matches Some(oi) ==> mode_len_wf(oi),
{
}

/// Operand synthesis reads only the bytes the declared instruction length
/// covers: the second byte matters only from length two on, the third only
/// at length three.
pub proof fn lemma_operands_use_declared_bytes(b0: u8, b1: u8, b2: u8, c1: u8, c2: u8)
    requires
        opcode_table(b0) is Some,
        opcode_table(b0)->0.instruction_length >= 2 ==> b1 == c1,
        opcode_table(b0)->0.instruction_length == 3 ==> b2 == c2,
    ensures
        operands_spec(b0, b1, b2) == operands_spec(b0, c1, c2),
{
    lemma_table_mode_len(b0);
    assert(operands_spec(b0, b1, b2) =~= operands_spec(b0, c1, c2));
}

/// Decoding is determined by the bytes the declared length covers: two
/// windows that agree on them decode to the same descriptor and the same
/// operand list.
pub proof fn lemma_decode_prefix(data1: Seq<u8>, data2: Seq<u8>)
    requires
        decode_err(data1) is None,
        data2.len() >= opcode_table(data1[0])->0.instruction_length,
        forall|i: int|
            0 <= i < opcode_table(data1[0])->0.instruction_length ==> data1[i] == data2[i],
    ensures
        decode_err(data2) is None,
        opcode_table(data2[0]) == opcode_table(data1[0]),
        operands_spec(data1[0], byte_or_zero(data1, 1), byte_or_zero(data1, 2)) == operands_spec(
            data2[0],
            byte_or_zero(data2, 1),
            byte_or_zero(data2, 2),
        ),
{
    lemma_table_mode_len(data1[0]);
    assert(data1[0] == data2[0]);
    lemma_operands_use_declared_bytes(
        data1[0],
        byte_or_zero(data1, 1),
        byte_or_zero(data1, 2),
        byte_or_zero(data2, 1),
        byte_or_zero(data2, 2),
    );
}

} // verus!
