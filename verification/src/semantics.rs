//! The mathematical model of the 6800 executor.
//!
//! `exec_spec` says, for every decoded instruction, what the next
//! architectural state and memory are; `step_spec` composes it with the
//! decoder over the instruction window at the program counter.  The executor
//! in `processor` is proved to realize these functions exactly.

use vstd::prelude::*;

use crate::disassembler::{
    byte_or_zero, decode_err, opcode_table, operands_spec, AddressingMode, DisassemblyError,
    InstructionInfo, Opcode, OpcodeInfo, OperandType,
};
use crate::processor::ProcessorState;

verus! {

/// Bit index of the carry flag in the condition-code register.
pub const CARRY_INDEX: u8 = 0;

/// Bit index of the two's-complement overflow flag.
pub const OVERFLOW_INDEX: u8 = 1;

/// Bit index of the zero flag.
pub const ZERO_INDEX: u8 = 2;

/// Bit index of the negative flag.
pub const NEGATIVE_INDEX: u8 = 3;

/// Bit index of the interrupt mask.
pub const INTERRUPT_MASK_INDEX: u8 = 4;

/// Bit index of the half-carry flag.
pub const HALF_CARRY_INDEX: u8 = 5;

/// Whether bit `index` of `v` is set.
pub open spec fn bit_of(v: u8, index: u8) -> bool {
    v & (1u8 << index) != 0
}

/// Whether bit `index` of the 16-bit value `v` is set.
pub open spec fn bit16_of(v: u16, index: u16) -> bool {
    v & (1u16 << index) != 0
}

/// The condition-code register with bit `index` forced to `enable`.
pub open spec fn ccr_with(ccr: u8, index: u8, enable: bool) -> u8 {
    if enable {
        ccr | (1u8 << index)
    } else {
        ccr & !(1u8 << index)
    }
}

/// 8-bit addition, wrapping modulo 256.
pub open spec fn wrap_add8(a: u8, b: u8) -> u8 {
    if a + b > 255 {
        (a + b - 256) as u8
    } else {
        (a + b) as u8
    }
}

/// 8-bit subtraction, wrapping modulo 256.
pub open spec fn wrap_sub8(a: u8, b: u8) -> u8 {
    if a - b < 0 {
        (a - b + 256) as u8
    } else {
        (a - b) as u8
    }
}

/// 16-bit addition, wrapping modulo 65,536.
pub open spec fn wrap_add16(a: u16, b: u16) -> u16 {
    if a + b > 65535 {
        (a + b - 65536) as u16
    } else {
        (a + b) as u16
    }
}

/// 16-bit subtraction, wrapping modulo 65,536.
pub open spec fn wrap_sub16(a: u16, b: u16) -> u16 {
    if a - b < 0 {
        (a - b + 65536) as u16
    } else {
        (a - b) as u16
    }
}

/// The most significant byte of a 16-bit word.
pub open spec fn high_byte(w: u16) -> u8 {
    (w >> 8) as u8
}

/// The least significant byte of a 16-bit word.
pub open spec fn low_byte(w: u16) -> u8 {
    (w & 0xff) as u8
}

/// An 8-bit branch offset sign-extended to 16 bits.
pub open spec fn sign_extend(offset: u8) -> u16 {
    if offset >= 0x80 {
        (offset as u16) | 0xFF00
    } else {
        offset as u16
    }
}

/// A branch offset byte read as a two's-complement integer, between -128
/// and 127.
pub open spec fn signed_offset(offset: u8) -> int {
    if offset < 128 {
        offset as int
    } else {
        offset - 256
    }
}

/// Where a relative branch at `pc` with offset byte `offset` lands:
/// `pc + 2 + sign_extend(offset)`, wrapping modulo 65,536.
pub open spec fn branch_target(pc: u16, offset: u8) -> u16 {
    wrap_add16(wrap_add16(pc, 2), sign_extend(offset))
}

// Condition-code recipes.  Each one nests `ccr_with` in exactly the order the
// executor writes the flags, so a handler's final register equals the recipe
// by construction.

/// Flags after a logical operation or an 8-bit load, store or transfer with
/// result `r`: negative from bit 7, zero from `r == 0`, overflow cleared.
pub open spec fn logic_flags(ccr: u8, r: u8) -> u8 {
    ccr_with(
        ccr_with(ccr_with(ccr, NEGATIVE_INDEX, bit_of(r, 7)), ZERO_INDEX, r == 0),
        OVERFLOW_INDEX,
        false,
    )
}

/// Two's-complement overflow of an 8-bit addition `a + m` with result `r`.
pub open spec fn add_overflow(a: u8, m: u8, r: u8) -> bool {
    (bit_of(a, 7) && !bit_of(r, 7) && bit_of(m, 7)) || (!bit_of(a, 7) && !bit_of(m, 7) && bit_of(
        r,
        7,
    ))
}

/// Carry out of bit 7 of an 8-bit addition `a + m` with result `r`.
pub open spec fn add_carry(a: u8, m: u8, r: u8) -> bool {
    (bit_of(a, 7) && bit_of(m, 7)) || (bit_of(m, 7) && !bit_of(r, 7)) || (!bit_of(r, 7) && bit_of(
        a,
        7,
    ))
}

/// Carry out of bit 3 of an 8-bit addition `a + m` with result `r`.
pub open spec fn add_half_carry(a: u8, m: u8, r: u8) -> bool {
    (bit_of(a, 3) && bit_of(m, 3)) || (bit_of(m, 3) && !bit_of(r, 3)) || (!bit_of(r, 3) && bit_of(
        a,
        3,
    ))
}

/// Flags after an 8-bit addition of `m` to accumulator value `a` with result
/// `r`: negative, zero, overflow, carry and half-carry per the 6800 formulas.
pub open spec fn add_flags(ccr: u8, a: u8, m: u8, r: u8) -> u8 {
    ccr_with(
        ccr_with(
            ccr_with(
                ccr_with(ccr_with(ccr, NEGATIVE_INDEX, bit_of(r, 7)), ZERO_INDEX, r == 0),
                OVERFLOW_INDEX,
                add_overflow(a, m, r),
            ),
            CARRY_INDEX,
            add_carry(a, m, r),
        ),
        HALF_CARRY_INDEX,
        add_half_carry(a, m, r),
    )
}

/// Two's-complement overflow of an 8-bit subtraction `a - m` with result `r`.
pub open spec fn sub_overflow(a: u8, m: u8, r: u8) -> bool {
    (bit_of(a, 7) && !bit_of(r, 7) && !bit_of(m, 7)) || (!bit_of(a, 7) && bit_of(m, 7) && bit_of(
        r,
        7,
    ))
}

/// Borrow out of bit 7 of an 8-bit subtraction `a - m` with result `r`.
pub open spec fn sub_carry(a: u8, m: u8, r: u8) -> bool {
    (!bit_of(a, 7) && bit_of(m, 7)) || (bit_of(m, 7) && bit_of(r, 7)) || (bit_of(r, 7) && !bit_of(
        a,
        7,
    ))
}

/// Flags after an 8-bit subtraction of `m` from accumulator value `a` with
/// result `r`: negative, zero, overflow and carry (borrow); the half-carry
/// flag is unaffected.
pub open spec fn sub_flags(ccr: u8, a: u8, m: u8, r: u8) -> u8 {
    ccr_with(
        ccr_with(
            ccr_with(ccr_with(ccr, NEGATIVE_INDEX, bit_of(r, 7)), ZERO_INDEX, r == 0),
            OVERFLOW_INDEX,
            sub_overflow(a, m, r),
        ),
        CARRY_INDEX,
        sub_carry(a, m, r),
    )
}

/// Flags after a shift or rotate with result `r` and shifted-out bit `carry`:
/// negative, zero, carry, and overflow as `N xor C` of the new flags.
pub open spec fn shift_flags(ccr: u8, r: u8, carry: bool) -> u8 {
    ccr_with(
        ccr_with(ccr_with(ccr_with(ccr, NEGATIVE_INDEX, bit_of(r, 7)), ZERO_INDEX, r == 0), CARRY_INDEX, carry),
        OVERFLOW_INDEX,
        bit_of(r, 7) ^ carry,
    )
}

/// Flags after a two's-complement negation with result `r`: carry set unless
/// the result is zero, overflow set exactly for `0x80`.
pub open spec fn neg_flags(ccr: u8, r: u8) -> u8 {
    ccr_with(
        ccr_with(ccr_with(ccr_with(ccr, NEGATIVE_INDEX, bit_of(r, 7)), ZERO_INDEX, r == 0), CARRY_INDEX, r != 0),
        OVERFLOW_INDEX,
        r == 0x80,
    )
}

/// Flags after a one's-complement with result `r`: carry always set,
/// overflow always cleared.
pub open spec fn com_flags(ccr: u8, r: u8) -> u8 {
    ccr_with(
        ccr_with(ccr_with(ccr_with(ccr, NEGATIVE_INDEX, bit_of(r, 7)), ZERO_INDEX, r == 0), CARRY_INDEX, true),
        OVERFLOW_INDEX,
        false,
    )
}

/// Flags after an 8-bit increment or decrement with result `r`; `overflow`
/// is `r == 0x80` for increment and `r == 0x7F` for decrement, and the carry
/// is unaffected.
pub open spec fn incdec_flags(ccr: u8, r: u8, overflow: bool) -> u8 {
    ccr_with(
        ccr_with(ccr_with(ccr, NEGATIVE_INDEX, bit_of(r, 7)), ZERO_INDEX, r == 0),
        OVERFLOW_INDEX,
        overflow,
    )
}

/// Flags after a test of value `r`: negative and zero from the value, carry
/// and overflow cleared.
pub open spec fn tst_flags(ccr: u8, r: u8) -> u8 {
    ccr_with(
        ccr_with(ccr_with(ccr_with(ccr, NEGATIVE_INDEX, bit_of(r, 7)), ZERO_INDEX, r == 0), CARRY_INDEX, false),
        OVERFLOW_INDEX,
        false,
    )
}

/// Flags after a clear: zero set, the others cleared.
pub open spec fn clr_flags(ccr: u8) -> u8 {
    ccr_with(
        ccr_with(ccr_with(ccr_with(ccr, NEGATIVE_INDEX, false), ZERO_INDEX, true), OVERFLOW_INDEX, false),
        CARRY_INDEX,
        false,
    )
}

/// Flags after a 16-bit load or store of value `v`: negative from the high
/// byte's sign, zero from the full 16-bit value, overflow cleared.
pub open spec fn word_flags(ccr: u8, v: u16) -> u8 {
    ccr_with(
        ccr_with(ccr_with(ccr, NEGATIVE_INDEX, bit16_of(v, 15)), ZERO_INDEX, v == 0),
        OVERFLOW_INDEX,
        false,
    )
}

/// Flags after comparing the index register `x` against `m`, with 16-bit
/// wrapped difference `r`: negative from the high byte's sign, zero from the
/// full 16-bit result, overflow from the high bytes; the carry is unaffected.
pub open spec fn cpx_flags(ccr: u8, x: u16, m: u16, r: u16) -> u8 {
    ccr_with(
        ccr_with(ccr_with(ccr, NEGATIVE_INDEX, bit16_of(r, 15)), ZERO_INDEX, r == 0),
        OVERFLOW_INDEX,
        sub_overflow(high_byte(x), high_byte(m), high_byte(r)),
    )
}

/// The accumulator named by a register-typed operand, or zero for any other
/// operand.
pub open spec fn acc_get(s: ProcessorState, operand: OperandType) -> u8 {
    match operand {
        OperandType::AccumulatorA => s.accumulator_a,
        OperandType::AccumulatorB => s.accumulator_b,
        _ => 0,
    }
}

/// The state with the accumulator named by `operand` replaced by `value`;
/// any other operand leaves the state unchanged.
pub open spec fn acc_put(s: ProcessorState, operand: OperandType, value: u8) -> ProcessorState {
    match operand {
        OperandType::AccumulatorA => ProcessorState { accumulator_a: value, ..s },
        OperandType::AccumulatorB => ProcessorState { accumulator_b: value, ..s },
        _ => s,
    }
}

/// The state with a new condition-code register.
pub open spec fn with_ccr(s: ProcessorState, ccr: u8) -> ProcessorState {
    ProcessorState { condition_code_register: ccr, ..s }
}

/// The state with a new program counter.
pub open spec fn with_pc(s: ProcessorState, pc: u16) -> ProcessorState {
    ProcessorState { program_counter: pc, ..s }
}

/// The state with a new stack pointer.
pub open spec fn with_sp(s: ProcessorState, sp: u16) -> ProcessorState {
    ProcessorState { stack_pointer: sp, ..s }
}

/// The state with a new index register.
pub open spec fn with_x(s: ProcessorState, x: u16) -> ProcessorState {
    ProcessorState { index_register: x, ..s }
}

/// The state after the default program-counter rule: advance past the `len`
/// bytes of the instruction.
pub open spec fn adv(s: ProcessorState, len: u8) -> ProcessorState {
    with_pc(s, wrap_add16(s.program_counter, len as u16))
}

/// The decoded fields an instruction's execution depends on: its opcode,
/// addressing mode and length, the destination register operand when there
/// is one, and the raw immediate bytes.
pub ghost struct InstrParts {
    pub op: Opcode,
    pub mode: AddressingMode,
    pub len: u8,
    pub target: OperandType,
    pub imm8: u8,
    pub imm16: u16,
}

/// The 8-bit immediate of an operand list: the payload of its first
/// `Immediate8` element in the two standard positions, or zero.
pub open spec fn imm8_at(ops: Seq<OperandType>) -> u8 {
    if ops.len() >= 2 && ops[1] is Immediate8 {
        ops[1]->Immediate8_0
    } else if ops.len() >= 1 && ops[0] is Immediate8 {
        ops[0]->Immediate8_0
    } else {
        0
    }
}

/// The 16-bit immediate of an operand list, by the same rule as `imm8_at`.
pub open spec fn imm16_at(ops: Seq<OperandType>) -> u16 {
    if ops.len() >= 2 && ops[1] is Immediate16 {
        ops[1]->Immediate16_0
    } else if ops.len() >= 1 && ops[0] is Immediate16 {
        ops[0]->Immediate16_0
    } else {
        0
    }
}

/// The execution-relevant fields of a descriptor and its operand list.
pub open spec fn parts_from(oi: OpcodeInfo, ops: Seq<OperandType>) -> InstrParts {
    InstrParts {
        op: oi.opcode,
        mode: oi.addressing_mode,
        len: oi.instruction_length,
        target: if ops.len() > 0 {
            ops[0]
        } else {
            OperandType::ConditionCodeRegister
        },
        imm8: imm8_at(ops),
        imm16: imm16_at(ops),
    }
}

/// The execution-relevant fields of a disassembled instruction.
pub open spec fn parts_of_info(info: InstructionInfo) -> InstrParts {
    parts_from(
        info.opcode_info,
        if info.operands is Some {
            info.operands->0@
        } else {
            seq![]
        },
    )
}

/// The effective address an addressing mode designates: the zero-extended
/// operand byte for direct mode, the operand word for extended mode, the
/// index register plus offset for indexed mode, and the branch target for
/// relative mode.  Address arithmetic wraps modulo 65,536.
pub open spec fn effective_address(s: ProcessorState, p: InstrParts) -> u16 {
    match p.mode {
        AddressingMode::Direct => p.imm8 as u16,
        AddressingMode::Extended => p.imm16,
        AddressingMode::Indexed => wrap_add16(s.index_register, p.imm8 as u16),
        AddressingMode::Relative => branch_target(s.program_counter, p.imm8),
        _ => 0,
    }
}

/// The 8-bit operand value: the immediate byte itself, or the byte in memory
/// at the effective address.
pub open spec fn operand_value8(s: ProcessorState, mem: Seq<u8>, p: InstrParts) -> u8 {
    if p.mode == AddressingMode::Immediate {
        p.imm8
    } else {
        mem[effective_address(s, p) as int]
    }
}

/// The 16-bit word stored in memory at `address`, high byte first; the
/// second byte's address wraps modulo 65,536.
pub open spec fn mem_word(mem: Seq<u8>, address: u16) -> u16 {
    ((mem[address as int] as u16) << 8) | (mem[wrap_add16(address, 1) as int] as u16)
}

/// The 16-bit operand value: the immediate word itself, or the word in
/// memory at the effective address.
pub open spec fn operand_value16(s: ProcessorState, mem: Seq<u8>, p: InstrParts) -> u16 {
    if p.mode == AddressingMode::Immediate {
        p.imm16
    } else {
        mem_word(mem, effective_address(s, p))
    }
}

/// The value a read-modify-write instruction operates on: the named
/// accumulator in accumulator mode, else the byte at the effective address.
pub open spec fn rmw_value(s: ProcessorState, mem: Seq<u8>, p: InstrParts) -> u8 {
    if p.mode == AddressingMode::Accumulator {
        acc_get(s, p.target)
    } else {
        mem[effective_address(s, p) as int]
    }
}

/// Whether an opcode is one of the relative branches (the subroutine
/// branch, which also saves a return address, is not among them).
pub open spec fn is_relative_branch(op: Opcode) -> bool {
    match op {
        Opcode::BranchUnconditional | Opcode::BranchIfHigherThan | Opcode::BranchIfLowerThanEqual
            | Opcode::BranchIfCarryClear | Opcode::BranchIfCarrySet | Opcode::BranchIfNotEqual
            | Opcode::BranchIfEqual | Opcode::BranchIfOverflowClear | Opcode::BranchIfOverflowSet
            | Opcode::BranchIfPlus | Opcode::BranchIfMinus | Opcode::BranchIfGreaterThanEqual
            | Opcode::BranchIfLessThan | Opcode::BranchIfGreaterThan
            | Opcode::BranchIfLessThanEqual => true,
        _ => false,
    }
}

/// Whether the condition of a conditional (or unconditional) branch holds of
/// the given condition codes.
pub open spec fn branch_cond(op: Opcode, ccr: u8) -> bool {
    let c = bit_of(ccr, CARRY_INDEX);
    let v = bit_of(ccr, OVERFLOW_INDEX);
    let z = bit_of(ccr, ZERO_INDEX);
    let n = bit_of(ccr, NEGATIVE_INDEX);
    match op {
        Opcode::BranchUnconditional => true,
        Opcode::BranchIfCarryClear => !c,
        Opcode::BranchIfCarrySet => c,
        Opcode::BranchIfEqual => z,
        Opcode::BranchIfNotEqual => !z,
        Opcode::BranchIfMinus => n,
        Opcode::BranchIfPlus => !n,
        Opcode::BranchIfOverflowSet => v,
        Opcode::BranchIfOverflowClear => !v,
        Opcode::BranchIfHigherThan => !(c || z),
        Opcode::BranchIfLowerThanEqual => c || z,
        Opcode::BranchIfGreaterThanEqual => !(n ^ v),
        Opcode::BranchIfLessThan => n ^ v,
        Opcode::BranchIfGreaterThan => !z && !(n ^ v),
        Opcode::BranchIfLessThanEqual => z || (n ^ v),
        _ => false,
    }
}

/// A machine configuration: the architectural registers together with the
/// contents of memory.
pub ghost struct Machine {
    pub state: ProcessorState,
    pub mem: Seq<u8>,
}

/// A configuration with the same memory and a new register state.
pub open spec fn regs(m: Machine, s: ProcessorState) -> Machine {
    Machine { state: s, mem: m.mem }
}

/// Where a read-modify-write instruction puts its result: into the named
/// accumulator in accumulator mode, else into memory at the effective
/// address.
pub open spec fn rmw_commit(s: ProcessorState, mem: Seq<u8>, p: InstrParts, r: u8) -> Machine {
    if p.mode == AddressingMode::Accumulator {
        Machine { state: acc_put(s, p.target, r), mem }
    } else {
        Machine { state: s, mem: mem.update(effective_address(s, p) as int, r) }
    }
}

/// What one decoded instruction does to the machine: the meaning of every
/// opcode, written over the flag recipes and addressing helpers above.
pub open spec fn exec_spec(s: ProcessorState, mem: Seq<u8>, p: InstrParts) -> Machine {
    let ccr = s.condition_code_register;
    match p.op {
        Opcode::Nop | Opcode::DecimalAdjustA => Machine { state: adv(s, p.len), mem },
        Opcode::TransferAToConditionCodes => Machine {
            state: adv(with_ccr(s, s.accumulator_a), p.len),
            mem,
        },
        Opcode::TransferConditionCodesToA => Machine {
            state: adv(acc_put(s, OperandType::AccumulatorA, ccr | 0xC0), p.len),
            mem,
        },
        Opcode::TransferAToB => Machine {
            state: adv(
                with_ccr(acc_put(s, OperandType::AccumulatorB, s.accumulator_a), logic_flags(ccr, s.accumulator_a)),
                p.len,
            ),
            mem,
        },
        Opcode::TransferBToA => Machine {
            state: adv(
                with_ccr(acc_put(s, OperandType::AccumulatorA, s.accumulator_b), logic_flags(ccr, s.accumulator_b)),
                p.len,
            ),
            mem,
        },
        Opcode::IncrementIndexRegister => {
            let x = wrap_add16(s.index_register, 1);
            Machine { state: adv(with_ccr(with_x(s, x), ccr_with(ccr, ZERO_INDEX, x == 0)), p.len), mem }
        },
        Opcode::DecrementIndexRegister => {
            let x = wrap_sub16(s.index_register, 1);
            Machine { state: adv(with_ccr(with_x(s, x), ccr_with(ccr, ZERO_INDEX, x == 0)), p.len), mem }
        },
        Opcode::ClearOverflowFlag => Machine {
            state: adv(with_ccr(s, ccr_with(ccr, OVERFLOW_INDEX, false)), p.len),
            mem,
        },
        Opcode::SetOverflowFlag => Machine {
            state: adv(with_ccr(s, ccr_with(ccr, OVERFLOW_INDEX, true)), p.len),
            mem,
        },
        Opcode::ClearCarryFlag => Machine {
            state: adv(with_ccr(s, ccr_with(ccr, CARRY_INDEX, false)), p.len),
            mem,
        },
        Opcode::SetCarryFlag => Machine {
            state: adv(with_ccr(s, ccr_with(ccr, CARRY_INDEX, true)), p.len),
            mem,
        },
        Opcode::ClearInterruptMask => Machine {
            state: adv(with_ccr(s, ccr_with(ccr, INTERRUPT_MASK_INDEX, false)), p.len),
            mem,
        },
        Opcode::SetInterruptMask => Machine {
            state: adv(with_ccr(s, ccr_with(ccr, INTERRUPT_MASK_INDEX, true)), p.len),
            mem,
        },
        Opcode::SubtractBFromA => {
            let r = wrap_sub8(s.accumulator_a, s.accumulator_b);
            Machine {
                state: adv(
                    acc_put(
                        with_ccr(s, sub_flags(ccr, s.accumulator_a, s.accumulator_b, r)),
                        OperandType::AccumulatorA,
                        r,
                    ),
                    p.len,
                ),
                mem,
            }
        },
        Opcode::CompareAAndB => {
            let r = wrap_sub8(s.accumulator_a, s.accumulator_b);
            Machine {
                state: adv(with_ccr(s, sub_flags(ccr, s.accumulator_a, s.accumulator_b, r)), p.len),
                mem,
            }
        },
        Opcode::AddBToA => {
            let r = wrap_add8(s.accumulator_a, s.accumulator_b);
            Machine {
                state: adv(
                    acc_put(
                        with_ccr(s, add_flags(ccr, s.accumulator_a, s.accumulator_b, r)),
                        OperandType::AccumulatorA,
                        r,
                    ),
                    p.len,
                ),
                mem,
            }
        },
        Opcode::BranchUnconditional | Opcode::BranchIfHigherThan | Opcode::BranchIfLowerThanEqual
            | Opcode::BranchIfCarryClear | Opcode::BranchIfCarrySet | Opcode::BranchIfNotEqual
            | Opcode::BranchIfEqual | Opcode::BranchIfOverflowClear | Opcode::BranchIfOverflowSet
            | Opcode::BranchIfPlus | Opcode::BranchIfMinus | Opcode::BranchIfGreaterThanEqual
            | Opcode::BranchIfLessThan | Opcode::BranchIfGreaterThan
            | Opcode::BranchIfLessThanEqual => Machine {
            state: with_pc(
                s,
                if branch_cond(p.op, ccr) {
                    branch_target(s.program_counter, p.imm8)
                } else {
                    wrap_add16(s.program_counter, 2)
                },
            ),
            mem,
        },
        Opcode::BranchToSubroutine => {
            let ret = wrap_add16(s.program_counter, 2);
            let sp1 = wrap_sub16(s.stack_pointer, 1);
            Machine {
                state: with_pc(with_sp(s, wrap_sub16(sp1, 1)), branch_target(s.program_counter, p.imm8)),
                mem: mem.update(s.stack_pointer as int, low_byte(ret)).update(
                    sp1 as int,
                    high_byte(ret),
                ),
            }
        },
        Opcode::JumpToSubroutine => {
            let ret = wrap_add16(s.program_counter, p.len as u16);
            let sp1 = wrap_sub16(s.stack_pointer, 1);
            Machine {
                state: with_pc(with_sp(s, wrap_sub16(sp1, 1)), effective_address(s, p)),
                mem: mem.update(s.stack_pointer as int, low_byte(ret)).update(
                    sp1 as int,
                    high_byte(ret),
                ),
            }
        },
        Opcode::Jump => Machine { state: with_pc(s, effective_address(s, p)), mem },
        Opcode::Return => {
            let sp1 = wrap_add16(s.stack_pointer, 1);
            let sp2 = wrap_add16(sp1, 1);
            let pc = ((mem[sp1 as int] as u16) << 8) | (mem[sp2 as int] as u16);
            Machine { state: with_pc(with_sp(s, sp2), pc), mem }
        },
        Opcode::TransferStackPointerToIndexRegister => Machine {
            state: adv(with_x(s, wrap_add16(s.stack_pointer, 1)), p.len),
            mem,
        },
        Opcode::TransferIndexRegisterToStackPointer => Machine {
            state: adv(with_sp(s, wrap_sub16(s.index_register, 1)), p.len),
            mem,
        },
        Opcode::IncrementStackPointer => Machine {
            state: adv(with_sp(s, wrap_add16(s.stack_pointer, 1)), p.len),
            mem,
        },
        Opcode::DecrementStackPointer => Machine {
            state: adv(with_sp(s, wrap_sub16(s.stack_pointer, 1)), p.len),
            mem,
        },
        Opcode::Push => Machine {
            state: adv(with_sp(s, wrap_sub16(s.stack_pointer, 1)), p.len),
            mem: mem.update(s.stack_pointer as int, acc_get(s, p.target)),
        },
        Opcode::Pop => {
            let sp1 = wrap_add16(s.stack_pointer, 1);
            Machine {
                state: adv(with_sp(acc_put(s, p.target, mem[sp1 as int]), sp1), p.len),
                mem,
            }
        },
        Opcode::Negate => {
            let v = rmw_value(s, mem, p);
            let r = wrap_sub8(0, v);
            let m1 = rmw_commit(s, mem, p, r);
            regs(m1, adv(with_ccr(m1.state, neg_flags(ccr, r)), p.len))
        },
        Opcode::Complement => {
            let v = rmw_value(s, mem, p);
            let r = !v;
            let m1 = rmw_commit(s, mem, p, r);
            regs(m1, adv(with_ccr(m1.state, com_flags(ccr, r)), p.len))
        },
        Opcode::LogicalShiftRight => {
            let v = rmw_value(s, mem, p);
            let r = v >> 1;
            let m1 = rmw_commit(s, mem, p, r);
            regs(m1, adv(with_ccr(m1.state, shift_flags(ccr, r, bit_of(v, 0))), p.len))
        },
        Opcode::ArithmeticShiftRight => {
            let v = rmw_value(s, mem, p);
            let r = (v >> 1) | (v & 0x80);
            let m1 = rmw_commit(s, mem, p, r);
            regs(m1, adv(with_ccr(m1.state, shift_flags(ccr, r, bit_of(v, 0))), p.len))
        },
        Opcode::ArithmeticShiftLeft => {
            let v = rmw_value(s, mem, p);
            let r = (v << 1) as u8;
            let m1 = rmw_commit(s, mem, p, r);
            regs(m1, adv(with_ccr(m1.state, shift_flags(ccr, r, bit_of(v, 7))), p.len))
        },
        Opcode::RotateLeft => {
            let v = rmw_value(s, mem, p);
            let r = ((v << 1) as u8) | (if bit_of(ccr, CARRY_INDEX) { 1u8 } else { 0u8 });
            let m1 = rmw_commit(s, mem, p, r);
            regs(m1, adv(with_ccr(m1.state, shift_flags(ccr, r, bit_of(v, 7))), p.len))
        },
        Opcode::RotateRight => {
            let v = rmw_value(s, mem, p);
            let r = (v >> 1) | (if bit_of(ccr, CARRY_INDEX) { 0x80u8 } else { 0u8 });
            let m1 = rmw_commit(s, mem, p, r);
            regs(m1, adv(with_ccr(m1.state, shift_flags(ccr, r, bit_of(v, 0))), p.len))
        },
        Opcode::Decrement => {
            let v = rmw_value(s, mem, p);
            let r = wrap_sub8(v, 1);
            let m1 = rmw_commit(s, mem, p, r);
            regs(m1, adv(with_ccr(m1.state, incdec_flags(ccr, r, r == 0x7F)), p.len))
        },
        Opcode::Increment => {
            let v = rmw_value(s, mem, p);
            let r = wrap_add8(v, 1);
            let m1 = rmw_commit(s, mem, p, r);
            regs(m1, adv(with_ccr(m1.state, incdec_flags(ccr, r, r == 0x80)), p.len))
        },
        Opcode::Test => {
            let v = rmw_value(s, mem, p);
            Machine { state: adv(with_ccr(s, tst_flags(ccr, v)), p.len), mem }
        },
        Opcode::Clear => {
            let m1 = rmw_commit(s, mem, p, 0);
            regs(m1, adv(with_ccr(m1.state, clr_flags(ccr)), p.len))
        },
        Opcode::Subtract => {
            let a = acc_get(s, p.target);
            let m = operand_value8(s, mem, p);
            let r = wrap_sub8(a, m);
            Machine {
                state: adv(acc_put(with_ccr(s, sub_flags(ccr, a, m, r)), p.target, r), p.len),
                mem,
            }
        },
        Opcode::Compare => {
            let a = acc_get(s, p.target);
            let m = operand_value8(s, mem, p);
            let r = wrap_sub8(a, m);
            Machine { state: adv(with_ccr(s, sub_flags(ccr, a, m, r)), p.len), mem }
        },
        Opcode::SubtractWithCarry => {
            let a = acc_get(s, p.target);
            let m = operand_value8(s, mem, p);
            let c: u8 = if bit_of(ccr, CARRY_INDEX) { 1 } else { 0 };
            let r = wrap_sub8(wrap_sub8(a, m), c);
            Machine {
                state: adv(acc_put(with_ccr(s, sub_flags(ccr, a, m, r)), p.target, r), p.len),
                mem,
            }
        },
        Opcode::And => {
            let a = acc_get(s, p.target);
            let m = operand_value8(s, mem, p);
            let r = a & m;
            Machine {
                state: adv(acc_put(with_ccr(s, logic_flags(ccr, r)), p.target, r), p.len),
                mem,
            }
        },
        Opcode::BitTest => {
            let a = acc_get(s, p.target);
            let m = operand_value8(s, mem, p);
            let r = m & a;
            Machine { state: adv(with_ccr(s, logic_flags(ccr, r)), p.len), mem }
        },
        Opcode::LoadAccumulator => {
            let m = operand_value8(s, mem, p);
            Machine {
                state: adv(acc_put(with_ccr(s, logic_flags(ccr, m)), p.target, m), p.len),
                mem,
            }
        },
        Opcode::StoreAccumulator => {
            let a = acc_get(s, p.target);
            Machine {
                state: adv(with_ccr(s, logic_flags(ccr, a)), p.len),
                mem: mem.update(effective_address(s, p) as int, a),
            }
        },
        Opcode::Xor => {
            let a = acc_get(s, p.target);
            let m = operand_value8(s, mem, p);
            let r = a ^ m;
            Machine {
                state: adv(acc_put(with_ccr(s, logic_flags(ccr, r)), p.target, r), p.len),
                mem,
            }
        },
        Opcode::AddWithCarry => {
            let a = acc_get(s, p.target);
            let m = operand_value8(s, mem, p);
            let c: u8 = if bit_of(ccr, CARRY_INDEX) { 1 } else { 0 };
            let r = wrap_add8(wrap_add8(a, m), c);
            Machine {
                state: adv(acc_put(with_ccr(s, add_flags(ccr, a, m, r)), p.target, r), p.len),
                mem,
            }
        },
        Opcode::Or => {
            let a = acc_get(s, p.target);
            let m = operand_value8(s, mem, p);
            let r = a | m;
            Machine {
                state: adv(acc_put(with_ccr(s, logic_flags(ccr, r)), p.target, r), p.len),
                mem,
            }
        },
        Opcode::Add => {
            let a = acc_get(s, p.target);
            let m = operand_value8(s, mem, p);
            let r = wrap_add8(a, m);
            Machine {
                state: adv(acc_put(with_ccr(s, add_flags(ccr, a, m, r)), p.target, r), p.len),
                mem,
            }
        },
        Opcode::CompareIndexRegister => {
            let m = operand_value16(s, mem, p);
            let r = wrap_sub16(s.index_register, m);
            Machine {
                state: adv(with_ccr(s, cpx_flags(ccr, s.index_register, m, r)), p.len),
                mem,
            }
        },
        Opcode::LoadStackPointer => {
            let v = operand_value16(s, mem, p);
            Machine { state: adv(with_ccr(with_sp(s, v), word_flags(ccr, v)), p.len), mem }
        },
        Opcode::LoadIndexRegister => {
            let v = operand_value16(s, mem, p);
            Machine { state: adv(with_ccr(with_x(s, v), word_flags(ccr, v)), p.len), mem }
        },
        Opcode::StoreStackPointer => {
            let ea = effective_address(s, p);
            Machine {
                state: adv(with_ccr(s, word_flags(ccr, s.stack_pointer)), p.len),
                mem: mem.update(ea as int, high_byte(s.stack_pointer)).update(
                    wrap_add16(ea, 1) as int,
                    low_byte(s.stack_pointer),
                ),
            }
        },
        Opcode::StoreIndexRegister => {
            let ea = effective_address(s, p);
            Machine {
                state: adv(with_ccr(s, word_flags(ccr, s.index_register)), p.len),
                mem: mem.update(ea as int, high_byte(s.index_register)).update(
                    wrap_add16(ea, 1) as int,
                    low_byte(s.index_register),
                ),
            }
        },
    }
}

/// How many bytes of the instruction window at `pc` exist below the top of
/// the address space: up to three, fewer at the very end of memory.
pub open spec fn window_len(pc: u16) -> int {
    if 65536 - pc >= 3 {
        3
    } else {
        65536 - pc
    }
}

/// The instruction window: the bytes of memory at the program counter that
/// the decoder sees.
pub open spec fn instruction_window(mem: Seq<u8>, pc: u16) -> Seq<u8> {
    mem.subrange(pc as int, pc as int + window_len(pc))
}

/// One full step of the executor at the machine level: decode the window at
/// the program counter, then execute the decoded instruction; a decode error
/// leaves the machine unchanged.
pub open spec fn step_spec(s: ProcessorState, mem: Seq<u8>) -> Result<Machine, DisassemblyError> {
    let w = instruction_window(mem, s.program_counter);
    match decode_err(w) {
        Some(e) => Err(e),
        None => Ok(
            exec_spec(
                s,
                mem,
                parts_from(
                    opcode_table(w[0])->0,
                    operands_spec(w[0], byte_or_zero(w, 1), byte_or_zero(w, 2)),
                ),
            ),
        ),
    }
}

} // verus!
