//! Executor: holds the architectural registers and the memory, steps one
//! instruction at a time, and is proved to follow the machine model in
//! `semantics` exactly — `emulate_instruction` realizes `step_spec`, and
//! every opcode handler realizes its arm of `exec_spec`.

use vstd::prelude::*;

use crate::disassembler::{
    byte_or_zero, decoded_wf, disassemble_instruction, opcode_table, operands_spec,
    AddressingMode, DisassemblyError, InstructionInfo, Opcode, OperandType,
};
use crate::memory_manager::MemoryManager;
use crate::semantics::{
    acc_get, acc_put, add_flags, adv, bit16_of, bit_of, branch_target, ccr_with, exec_spec,
    high_byte, instruction_window, low_byte, mem_word, parts_of_info, step_spec, sub_flags,
    with_ccr, with_pc, with_sp, wrap_add16, wrap_sub16, wrap_sub8, Machine, CARRY_INDEX,
    HALF_CARRY_INDEX, INTERRUPT_MASK_INDEX, NEGATIVE_INDEX, OVERFLOW_INDEX, ZERO_INDEX,
};

verus! {

/// The longest instruction occupies three bytes, so three bytes at the
/// program counter always suffice for decoding.
pub const MAX_INSTRUCTION_LENGTH: u16 = 3;

/// The architectural registers of the 6800: two 8-bit accumulators, the
/// 16-bit index register, program counter and stack pointer, and the 8-bit
/// condition-code register.
#[derive(Clone, Copy, Debug, PartialEq, Eq, Structural)]
pub struct ProcessorState {
    pub accumulator_a: u8,
    pub accumulator_b: u8,
    pub index_register: u16,
    pub program_counter: u16,
    pub stack_pointer: u16,
    pub condition_code_register: u8,
}

/// The named flags of the condition-code register.
#[derive(Clone, Copy, Debug)]
pub enum ConditionCodeFlag {
    Carry,
    Overflow,
    Zero,
    Negative,
    InterruptMask,
    HalfCarry,
}

/// The bit index each flag occupies in the condition-code register.
pub open spec fn flag_index(flag: ConditionCodeFlag) -> u8 {
    match flag {
        ConditionCodeFlag::Carry => CARRY_INDEX,
        ConditionCodeFlag::Overflow => OVERFLOW_INDEX,
        ConditionCodeFlag::Zero => ZERO_INDEX,
        ConditionCodeFlag::Negative => NEGATIVE_INDEX,
        ConditionCodeFlag::InterruptMask => INTERRUPT_MASK_INDEX,
        ConditionCodeFlag::HalfCarry => HALF_CARRY_INDEX,
    }
}

/// Errors that can arise while emulating one instruction.
#[derive(Clone, Copy, Debug, PartialEq, Eq, Structural)]
pub enum EmulationError {
    /// `emulate_instruction` was called before memory was attached.
    NoMemoryManager,
    /// The bytes at the program counter do not decode; the wrapped decode
    /// error says why.
    DisassemblyError(DisassemblyError),
}

impl ProcessorState {
    /// The power-on state: every register zero.
    pub fn new_empty() -> (r: ProcessorState)
        ensures
            r == (ProcessorState {
                accumulator_a: 0u8,
                accumulator_b: 0u8,
                index_register: 0u16,
                program_counter: 0u16,
                stack_pointer: 0u16,
                condition_code_register: 0u8,
            }),
    {
        ProcessorState {
            accumulator_a: 0,
            accumulator_b: 0,
            index_register: 0,
            program_counter: 0,
            stack_pointer: 0,
            condition_code_register: 0,
        }
    }

    fn _set_condition_code_flag(&mut self, index: u8, enable: bool)
        requires
            index < 8,
        ensures
            *final(self) == with_ccr(
                *old(self),
                ccr_with(old(self).condition_code_register, index, enable),
            ),
    {
        match enable {
            true => self.condition_code_register = self.condition_code_register | (1u8 << index),
            false => self.condition_code_register = self.condition_code_register & !(1u8 << index),
        }
    }

    /// Forces one named flag of the condition-code register to `enable`,
    /// leaving every other register bit alone.
    pub fn set_condition_code_flag(&mut self, flag: ConditionCodeFlag, enable: bool)
        ensures
            *final(self) == with_ccr(
                *old(self),
                ccr_with(old(self).condition_code_register, flag_index(flag), enable),
            ),
    {
        match flag {
            ConditionCodeFlag::Carry => self._set_condition_code_flag(0, enable),
            ConditionCodeFlag::Overflow => self._set_condition_code_flag(1, enable),
            ConditionCodeFlag::Zero => self._set_condition_code_flag(2, enable),
            ConditionCodeFlag::Negative => self._set_condition_code_flag(3, enable),
            ConditionCodeFlag::InterruptMask => self._set_condition_code_flag(4, enable),
            ConditionCodeFlag::HalfCarry => self._set_condition_code_flag(5, enable),
        }
    }

    /// Whether one named flag of the condition-code register is set.
    pub fn get_condition_code_flag(&self, flag: ConditionCodeFlag) -> (r: bool)
        ensures
            r == bit_of(self.condition_code_register, flag_index(flag)),
    {
        let index: u8 = match flag {
            ConditionCodeFlag::Carry => 0,
            ConditionCodeFlag::Overflow => 1,
            ConditionCodeFlag::Zero => 2,
            ConditionCodeFlag::Negative => 3,
            ConditionCodeFlag::InterruptMask => 4,
            ConditionCodeFlag::HalfCarry => 5,
        };

        (self.condition_code_register & (1u8 << index)) > 0
    }
}

/// What every opcode handler may assume: the executor is well formed with
/// memory attached, and the instruction is a well-formed decode result for
/// the given opcode.
pub open spec fn ready(p: Processor, info: InstructionInfo, op: Opcode) -> bool {
    &&& p.wf()
    &&& p.has_mem()
    &&& decoded_wf(info)
    &&& parts_of_info(info).op == op
}

/// What every opcode handler guarantees: the executor stays well formed and
/// lands exactly in the machine configuration `exec_spec` prescribes for the
/// instruction.
pub open spec fn runs(p0: Processor, p1: Processor, info: InstructionInfo) -> bool {
    &&& p1.wf()
    &&& p1.has_mem()
    &&& p1.machine() == exec_spec(p0.st(), p0.mem(), parts_of_info(info))
}

/// Resolution of one operand: the effective address it designates, if any,
/// and the value it supplies, if any.
#[derive(Clone, Copy, Debug)]
pub struct AccessDetails {
    address: Option<u16>,
    value: Option<u8>,
}

/// The executor: the register state together with the memory it is bound to.
pub struct Processor {
    state: ProcessorState,
    memory_manager: Option<MemoryManager>,
}

impl Processor {
    /// The register state.
    pub closed spec fn st(&self) -> ProcessorState {
        self.state
    }

    /// Whether memory has been attached.
    pub closed spec fn has_mem(&self) -> bool {
        self.memory_manager is Some
    }

    /// The contents of the attached memory.
    pub closed spec fn mem(&self) -> Seq<u8> {
        self.memory_manager->0@
    }

    /// Attached memory always spans the full 16-bit address space.
    pub open spec fn wf(&self) -> bool {
        self.has_mem() ==> self.mem().len() == 65536
    }

    /// The machine configuration this executor is in.
    pub open spec fn machine(&self) -> Machine {
        Machine { state: self.st(), mem: self.mem() }
    }

    /// A fresh executor: power-on registers, no memory attached.
    pub fn new() -> (r: Processor)
        ensures
            r.st() == (ProcessorState {
                accumulator_a: 0u8,
                accumulator_b: 0u8,
                index_register: 0u16,
                program_counter: 0u16,
                stack_pointer: 0u16,
                condition_code_register: 0u8,
            }),
            !r.has_mem(),
            r.wf(),
    {
        Processor { state: ProcessorState::new_empty(), memory_manager: None }
    }

    /// Binds a memory to the executor; the registers are untouched.
    pub fn set_memory_manager(&mut self, memory_manager: MemoryManager)
        requires
            memory_manager.wf(),
        ensures
            final(self).st() == old(self).st(),
            final(self).has_mem(),
            final(self).mem() == memory_manager@,
            final(self).wf(),
    {
        self.memory_manager = Some(memory_manager);
    }

    /// Sets the program counter; everything else is untouched.
    pub fn set_program_counter(&mut self, program_counter: u16)
        ensures
            final(self).st() == with_pc(old(self).st(), program_counter),
            final(self).has_mem() == old(self).has_mem(),
            final(self).mem() == old(self).mem(),
            final(self).wf() == old(self).wf(),
    {
        self.state.program_counter = program_counter;
    }

    /// A copy of the register state.
    pub fn get_state(&self) -> (r: ProcessorState)
        ensures
            r == self.st(),
    {
        self.state
    }

    /// A view of the attached memory, for hosts that inspect it between
    /// steps.
    pub fn memory(&self) -> (r: Option<&MemoryManager>)
        ensures
            r is Some <==> self.has_mem(),
            r matches Some(m) ==> m@ == self.mem(),
    {
        self.memory_manager.as_ref()
    }

    fn set_negative_flag(&mut self, result: u8)
        ensures
            final(self).state == with_ccr(
                old(self).state,
                ccr_with(old(self).state.condition_code_register, NEGATIVE_INDEX, bit_of(result, 7)),
            ),
            final(self).memory_manager == old(self).memory_manager,
    {
        self.state.set_condition_code_flag(ConditionCodeFlag::Negative, bit_at(result, 7));
    }

    fn set_zero_flag(&mut self, result: u8)
        ensures
            final(self).state == with_ccr(
                old(self).state,
                ccr_with(old(self).state.condition_code_register, ZERO_INDEX, result == 0),
            ),
            final(self).memory_manager == old(self).memory_manager,
    {
        self.state.set_condition_code_flag(ConditionCodeFlag::Zero, result == 0);
    }

    fn advance_program_counter(&mut self, length: u8)
        ensures
            final(self).state == adv(old(self).state, length),
            final(self).memory_manager == old(self).memory_manager,
    {
        self.state.program_counter = self.state.program_counter.wrapping_add(length as u16);
    }

    /// The accumulator a register-typed operand names; any other operand
    /// reads as zero.
    fn get_accumulator_value(&self, accumulator: OperandType) -> (r: u8)
        ensures
            r == acc_get(self.st(), accumulator),
    {
        match accumulator {
            OperandType::AccumulatorA => self.state.accumulator_a,
            OperandType::AccumulatorB => self.state.accumulator_b,
            _ => 0,
        }
    }

    /// Replaces the accumulator a register-typed operand names; any other
    /// operand leaves the state alone.
    fn set_accumulator_value(&mut self, accumulator: OperandType, value: u8)
        ensures
            final(self).state == acc_put(old(self).state, accumulator, value),
            final(self).memory_manager == old(self).memory_manager,
    {
        match accumulator {
            OperandType::AccumulatorA => {
                self.state.accumulator_a = value;
            },
            OperandType::AccumulatorB => {
                self.state.accumulator_b = value;
            },
            _ => {},
        };
    }

    fn write_to_memory(&mut self, address: u16, value: u8)
        requires
            old(self).wf(),
            old(self).has_mem(),
        ensures
            final(self).wf(),
            final(self).has_mem(),
            final(self).state == old(self).state,
            final(self).mem() == old(self).mem().update(address as int, value),
    {
        match &mut self.memory_manager {
            Some(memory_manager) => memory_manager.write_byte(address, value),
            None => {
                proof {
                    assert(false);
                }
            },
        }
    }

    fn read_from_memory(&self, address: u16) -> (r: u8)
        requires
            self.wf(),
            self.has_mem(),
        ensures
            r == self.mem()[address as int],
    {
        match &self.memory_manager {
            Some(memory_manager) => memory_manager.read_byte(address),
            None => {
                proof {
                    assert(false);
                }
                0
            },
        }
    }

    /// Resolves one operand of a decoded instruction to an effective address
    /// and a fetched value, per the instruction's addressing mode.
    fn resolve_operand(&self, instruction_info: &InstructionInfo, operand_index: usize) -> (r:
        AccessDetails)
        requires
            self.wf(),
            self.has_mem(),
            instruction_info.operands matches Some(ops) && operand_index < ops@.len(),
        ensures
            ({
                let ops = instruction_info.operands->0@;
                let mode = instruction_info.opcode_info.addressing_mode;
                let op = ops[operand_index as int];
                &&& (mode == AddressingMode::Immediate && op is Immediate8 ==> r
                    == AccessDetails { address: None, value: Some(op->Immediate8_0) })
                &&& (mode == AddressingMode::Direct && op is Immediate8 ==> r == AccessDetails {
                    address: Some(op->Immediate8_0 as u16),
                    value: Some(self.mem()[op->Immediate8_0 as int]),
                })
                &&& (mode == AddressingMode::Extended && op is Immediate16 ==> r == AccessDetails {
                    address: Some(op->Immediate16_0),
                    value: Some(self.mem()[op->Immediate16_0 as int]),
                })
                &&& (mode == AddressingMode::Indexed && op is Immediate8 ==> r == AccessDetails {
                    address: Some(wrap_add16(self.st().index_register, op->Immediate8_0 as u16)),
                    value: Some(
                        self.mem()[wrap_add16(self.st().index_register, op->Immediate8_0 as u16) as int],
                    ),
                })
                &&& (mode == AddressingMode::Relative && op is Immediate8 ==> r == AccessDetails {
                    address: Some(branch_target(self.st().program_counter, op->Immediate8_0)),
                    value: None,
                })
            }),
    {
        let operands: &Vec<OperandType> = self.operands_ref(instruction_info);
        let mut access_details: AccessDetails = AccessDetails { address: None, value: None };

        if instruction_info.opcode_info.addressing_mode == AddressingMode::Direct {
            if let OperandType::Immediate8(addr) = operands[operand_index] {
                access_details.address = Some(addr as u16);
                access_details.value = Some(self.read_from_memory(addr as u16));
            }
        } else if instruction_info.opcode_info.addressing_mode == AddressingMode::Extended {
            if let OperandType::Immediate16(addr) = operands[operand_index] {
                access_details.address = Some(addr);
                access_details.value = Some(self.read_from_memory(addr));
            }
        } else if instruction_info.opcode_info.addressing_mode == AddressingMode::Immediate {
            if let OperandType::Immediate8(value) = operands[operand_index] {
                access_details.value = Some(value);
            }
        } else if instruction_info.opcode_info.addressing_mode == AddressingMode::Indexed {
            if let OperandType::Immediate8(offset) = operands[operand_index] {
                let address = self.state.index_register.wrapping_add(offset as u16);
                access_details.address = Some(address);
                access_details.value = Some(self.read_from_memory(address));
            }
        } else if instruction_info.opcode_info.addressing_mode == AddressingMode::Relative {
            if let OperandType::Immediate8(offset) = operands[operand_index] {
                access_details.address = Some(self.branch_target_exec(offset));
            }
        }

        access_details
    }

    /// The operand list of a decoded instruction.
    fn operands_ref<'a>(&self, instruction_info: &'a InstructionInfo) -> (r: &'a Vec<OperandType>)
        requires
            instruction_info.operands is Some,
        ensures
            r@ == instruction_info.operands->0@,
    {
        match &instruction_info.operands {
            Some(operands) => operands,
            None => {
                proof {
                    assert(false);
                }
                unreached()
            },
        }
    }

    /// The branch target: the program counter, past the two instruction
    /// bytes, plus the sign-extended offset, wrapping modulo 65,536.
    fn branch_target_exec(&self, offset: u8) -> (r: u16)
        ensures
            r == branch_target(self.st().program_counter, offset),
    {
        let extended: u16 = if offset >= 0x80 {
            (offset as u16) | 0xFF00
        } else {
            offset as u16
        };
        self.state.program_counter.wrapping_add(2).wrapping_add(extended)
    }

    fn set_addition_condition_codes(&mut self, accumulator: u8, operand: u8, result: u8)
        ensures
            final(self).state == with_ccr(
                old(self).state,
                add_flags(old(self).state.condition_code_register, accumulator, operand, result),
            ),
            final(self).memory_manager == old(self).memory_manager,
    {
        let accumulator_msb = bit_at(accumulator, 7);
        let operand_msb = bit_at(operand, 7);
        let result_msb = bit_at(result, 7);

        let half_carry = (bit_at(accumulator, 3) && bit_at(operand, 3)) || (bit_at(operand, 3)
            && !bit_at(result, 3)) || (!bit_at(result, 3) && bit_at(accumulator, 3));
        let overflow = (accumulator_msb && !result_msb && operand_msb) || (!accumulator_msb
            && !operand_msb && result_msb);
        let carry = (accumulator_msb && operand_msb) || (operand_msb && !result_msb) || (!result_msb
            && accumulator_msb);
        self.set_negative_flag(result);
        self.set_zero_flag(result);
        self.state.set_condition_code_flag(ConditionCodeFlag::Overflow, overflow);
        self.state.set_condition_code_flag(ConditionCodeFlag::Carry, carry);
        self.state.set_condition_code_flag(ConditionCodeFlag::HalfCarry, half_carry);
    }

    fn set_subtraction_condition_codes(&mut self, accumulator: u8, operand: u8, result: u8)
        ensures
            final(self).state == with_ccr(
                old(self).state,
                sub_flags(old(self).state.condition_code_register, accumulator, operand, result),
            ),
            final(self).memory_manager == old(self).memory_manager,
    {
        let accumulator_msb = bit_at(accumulator, 7);
        let operand_msb = bit_at(operand, 7);
        let result_msb = bit_at(result, 7);

        let overflow = (accumulator_msb && !result_msb && !operand_msb) || (!accumulator_msb
            && operand_msb && result_msb);
        let carry = (!accumulator_msb && operand_msb) || (operand_msb && result_msb) || (result_msb
            && !accumulator_msb);
        self.set_negative_flag(result);
        self.set_zero_flag(result);
        self.state.set_condition_code_flag(ConditionCodeFlag::Overflow, overflow);
        self.state.set_condition_code_flag(ConditionCodeFlag::Carry, carry);
    }

    /// SUB: subtracts the resolved operand from the named accumulator.
    fn subtract_handler(&mut self, instruction_info: &InstructionInfo)
        requires
            ready(*old(self), *instruction_info, Opcode::Subtract),
        ensures
            runs(*old(self), *final(self), *instruction_info),
    {
        let target = self.operands_ref(instruction_info)[0];
        let operand: u8 = self.resolve_operand(instruction_info, 1).value.unwrap();
        let accumulator_value = self.get_accumulator_value(target);
        let result = accumulator_value.wrapping_sub(operand);

        self.set_subtraction_condition_codes(accumulator_value, operand, result);
        self.set_accumulator_value(target, result);
        self.advance_program_counter(instruction_info.opcode_info.instruction_length);
    }

    /// The 16-bit word in memory at `address`, high byte first; the second
    /// byte's address wraps modulo 65,536.
    fn read_word_from_memory(&self, address: u16) -> (r: u16)
        requires
            self.wf(),
            self.has_mem(),
        ensures
            r == mem_word(self.mem(), address),
    {
        let high = self.read_from_memory(address);
        let low = self.read_from_memory(address.wrapping_add(1));
        ((high as u16) << 8) | (low as u16)
    }

    /// Writes the 16-bit word `value` to memory at `address`, high byte
    /// first; the second byte's address wraps modulo 65,536.
    fn write_word_to_memory(&mut self, address: u16, value: u16)
        requires
            old(self).wf(),
            old(self).has_mem(),
        ensures
            final(self).wf(),
            final(self).has_mem(),
            final(self).state == old(self).state,
            final(self).mem() == old(self).mem().update(address as int, high_byte(value)).update(
                wrap_add16(address, 1) as int,
                low_byte(value),
            ),
    {
        self.write_to_memory(address, (value >> 8) as u8);
        self.write_to_memory(address.wrapping_add(1), (value & 0xff) as u8);
    }

    /// Writes `byte` to the stack and moves the stack pointer down.
    fn push(&mut self, byte: u8)
        requires
            old(self).wf(),
            old(self).has_mem(),
        ensures
            final(self).wf(),
            final(self).has_mem(),
            final(self).state == with_sp(old(self).state, wrap_sub16(old(self).state.stack_pointer, 1)),
            final(self).mem() == old(self).mem().update(old(self).state.stack_pointer as int, byte),
    {
        self.write_to_memory(self.state.stack_pointer, byte);
        self.state.stack_pointer = self.state.stack_pointer.wrapping_sub(1);
    }

    /// Moves the stack pointer up and reads the byte it then points at.
    fn pop(&mut self) -> (r: u8)
        requires
            old(self).wf(),
            old(self).has_mem(),
        ensures
            final(self).wf(),
            final(self).has_mem(),
            final(self).state == with_sp(old(self).state, wrap_add16(old(self).state.stack_pointer, 1)),
            final(self).mem() == old(self).mem(),
            r == old(self).mem()[wrap_add16(old(self).state.stack_pointer, 1) as int],
    {
        self.state.stack_pointer = self.state.stack_pointer.wrapping_add(1);
        self.read_from_memory(self.state.stack_pointer)
    }

    /// ADD: adds the resolved operand to the named accumulator.
    fn add_handler(&mut self, instruction_info: &InstructionInfo)
        requires
            ready(*old(self), *instruction_info, Opcode::Add),
        ensures
            runs(*old(self), *final(self), *instruction_info),
    {
        let target = self.operands_ref(instruction_info)[0];
        let operand: u8 = self.resolve_operand(instruction_info, 1).value.unwrap();
        let accumulator_value = self.get_accumulator_value(target);
        let result = accumulator_value.wrapping_add(operand);

        self.set_addition_condition_codes(accumulator_value, operand, result);
        self.set_accumulator_value(target, result);
        self.advance_program_counter(instruction_info.opcode_info.instruction_length);
    }

    /// ADC: adds the resolved operand and the carry flag to the named
    /// accumulator.
    fn add_with_carry_handler(&mut self, instruction_info: &InstructionInfo)
        requires
            ready(*old(self), *instruction_info, Opcode::AddWithCarry),
        ensures
            runs(*old(self), *final(self), *instruction_info),
    {
        let target = self.operands_ref(instruction_info)[0];
        let operand: u8 = self.resolve_operand(instruction_info, 1).value.unwrap();
        let accumulator_value = self.get_accumulator_value(target);
        let carry: u8 = if self.state.get_condition_code_flag(ConditionCodeFlag::Carry) {
            1
        } else {
            0
        };
        let result = accumulator_value.wrapping_add(operand).wrapping_add(carry);

        self.set_addition_condition_codes(accumulator_value, operand, result);
        self.set_accumulator_value(target, result);
        self.advance_program_counter(instruction_info.opcode_info.instruction_length);
    }

    /// SBC: subtracts the resolved operand and the carry flag from the named
    /// accumulator.
    fn subtract_with_carry_handler(&mut self, instruction_info: &InstructionInfo)
        requires
            ready(*old(self), *instruction_info, Opcode::SubtractWithCarry),
        ensures
            runs(*old(self), *final(self), *instruction_info),
    {
        let target = self.operands_ref(instruction_info)[0];
        let operand: u8 = self.resolve_operand(instruction_info, 1).value.unwrap();
        let accumulator_value = self.get_accumulator_value(target);
        let carry: u8 = if self.state.get_condition_code_flag(ConditionCodeFlag::Carry) {
            1
        } else {
            0
        };
        let result = accumulator_value.wrapping_sub(operand).wrapping_sub(carry);

        self.set_subtraction_condition_codes(accumulator_value, operand, result);
        self.set_accumulator_value(target, result);
        self.advance_program_counter(instruction_info.opcode_info.instruction_length);
    }

    /// AND: bitwise-ands the resolved operand into the named accumulator.
    fn and_handler(&mut self, instruction_info: &InstructionInfo)
        requires
            ready(*old(self), *instruction_info, Opcode::And),
        ensures
            runs(*old(self), *final(self), *instruction_info),
    {
        let target = self.operands_ref(instruction_info)[0];
        let operand: u8 = self.resolve_operand(instruction_info, 1).value.unwrap();
        let accumulator_value = self.get_accumulator_value(target);
        let result = accumulator_value & operand;

        self.set_negative_flag(result);
        self.set_zero_flag(result);
        self.state.set_condition_code_flag(ConditionCodeFlag::Overflow, false);
        self.set_accumulator_value(target, result);
        self.advance_program_counter(instruction_info.opcode_info.instruction_length);
    }

    /// ORA: bitwise-ors the resolved operand into the named accumulator.
    fn or_handler(&mut self, instruction_info: &InstructionInfo)
        requires
            ready(*old(self), *instruction_info, Opcode::Or),
        ensures
            runs(*old(self), *final(self), *instruction_info),
    {
        let target = self.operands_ref(instruction_info)[0];
        let operand: u8 = self.resolve_operand(instruction_info, 1).value.unwrap();
        let accumulator_value = self.get_accumulator_value(target);
        let result = accumulator_value | operand;

        self.set_negative_flag(result);
        self.set_zero_flag(result);
        self.state.set_condition_code_flag(ConditionCodeFlag::Overflow, false);
        self.set_accumulator_value(target, result);
        self.advance_program_counter(instruction_info.opcode_info.instruction_length);
    }

    /// EOR: bitwise-xors the resolved operand into the named accumulator.
    fn xor_handler(&mut self, instruction_info: &InstructionInfo)
        requires
            ready(*old(self), *instruction_info, Opcode::Xor),
        ensures
            runs(*old(self), *final(self), *instruction_info),
    {
        let target = self.operands_ref(instruction_info)[0];
        let operand: u8 = self.resolve_operand(instruction_info, 1).value.unwrap();
        let accumulator_value = self.get_accumulator_value(target);
        let result = accumulator_value ^ operand;

        self.set_negative_flag(result);
        self.set_zero_flag(result);
        self.state.set_condition_code_flag(ConditionCodeFlag::Overflow, false);
        self.set_accumulator_value(target, result);
        self.advance_program_counter(instruction_info.opcode_info.instruction_length);
    }

    /// BIT: ands the resolved operand with the named accumulator for the
    /// flags only; neither is modified.
    fn bit_test_handler(&mut self, instruction_info: &InstructionInfo)
        requires
            ready(*old(self), *instruction_info, Opcode::BitTest),
        ensures
            runs(*old(self), *final(self), *instruction_info),
    {
        let target = self.operands_ref(instruction_info)[0];
        let operand: u8 = self.resolve_operand(instruction_info, 1).value.unwrap();
        let accumulator_value = self.get_accumulator_value(target);
        let result = operand & accumulator_value;

        self.set_negative_flag(result);
        self.set_zero_flag(result);
        self.state.set_condition_code_flag(ConditionCodeFlag::Overflow, false);
        self.advance_program_counter(instruction_info.opcode_info.instruction_length);
    }

    /// Sets the subtraction condition codes for `operand1 - operand2`
    /// without storing the difference anywhere.
    fn compare(&mut self, operand1: u8, operand2: u8)
        ensures
            final(self).state == with_ccr(
                old(self).state,
                sub_flags(
                    old(self).state.condition_code_register,
                    operand1,
                    operand2,
                    wrap_sub8(operand1, operand2),
                ),
            ),
            final(self).memory_manager == old(self).memory_manager,
    {
        let result = operand1.wrapping_sub(operand2);
        self.set_subtraction_condition_codes(operand1, operand2, result);
    }

    /// CMP: compares the named accumulator with the resolved operand.
    fn compare_handler(&mut self, instruction_info: &InstructionInfo)
        requires
            ready(*old(self), *instruction_info, Opcode::Compare),
        ensures
            runs(*old(self), *final(self), *instruction_info),
    {
        let target = self.operands_ref(instruction_info)[0];
        let operand = self.resolve_operand(instruction_info, 1).value.unwrap();
        let accumulator_value = self.get_accumulator_value(target);

        self.compare(accumulator_value, operand);
        self.advance_program_counter(instruction_info.opcode_info.instruction_length);
    }

    /// CBA: compares accumulator A with accumulator B.
    fn compare_accumulators_handler(&mut self, instruction_info: &InstructionInfo)
        requires
            ready(*old(self), *instruction_info, Opcode::CompareAAndB),
        ensures
            runs(*old(self), *final(self), *instruction_info),
    {
        self.compare(self.state.accumulator_a, self.state.accumulator_b);
        self.advance_program_counter(instruction_info.opcode_info.instruction_length);
    }

    /// SBA: subtracts accumulator B from accumulator A, into A.
    fn subtract_accumulators_handler(&mut self, instruction_info: &InstructionInfo)
        requires
            ready(*old(self), *instruction_info, Opcode::SubtractBFromA),
        ensures
            runs(*old(self), *final(self), *instruction_info),
    {
        let a = self.state.accumulator_a;
        let b = self.state.accumulator_b;
        let result = a.wrapping_sub(b);

        self.set_subtraction_condition_codes(a, b, result);
        self.state.accumulator_a = result;
        self.advance_program_counter(instruction_info.opcode_info.instruction_length);
    }

    /// ABA: adds accumulator B to accumulator A, into A.
    fn add_b_to_a_handler(&mut self, instruction_info: &InstructionInfo)
        requires
            ready(*old(self), *instruction_info, Opcode::AddBToA),
        ensures
            runs(*old(self), *final(self), *instruction_info),
    {
        let a = self.state.accumulator_a;
        let b = self.state.accumulator_b;
        let result = a.wrapping_add(b);

        self.set_addition_condition_codes(a, b, result);
        self.state.accumulator_a = result;
        self.advance_program_counter(instruction_info.opcode_info.instruction_length);
    }

    /// LDA: loads the resolved operand into the named accumulator.
    fn load_accumulator_handler(&mut self, instruction_info: &InstructionInfo)
        requires
            ready(*old(self), *instruction_info, Opcode::LoadAccumulator),
        ensures
            runs(*old(self), *final(self), *instruction_info),
    {
        let target = self.operands_ref(instruction_info)[0];
        let operand: u8 = self.resolve_operand(instruction_info, 1).value.unwrap();

        self.set_negative_flag(operand);
        self.set_zero_flag(operand);
        self.state.set_condition_code_flag(ConditionCodeFlag::Overflow, false);
        self.set_accumulator_value(target, operand);
        self.advance_program_counter(instruction_info.opcode_info.instruction_length);
    }

    /// STA: stores the named accumulator at the resolved address.
    fn store_accumulator_handler(&mut self, instruction_info: &InstructionInfo)
        requires
            ready(*old(self), *instruction_info, Opcode::StoreAccumulator),
        ensures
            runs(*old(self), *final(self), *instruction_info),
    {
        let target = self.operands_ref(instruction_info)[0];
        let operand_address: u16 = self.resolve_operand(instruction_info, 1).address.unwrap();
        let accumulator_value = self.get_accumulator_value(target);

        self.write_to_memory(operand_address, accumulator_value);
        self.set_negative_flag(accumulator_value);
        self.set_zero_flag(accumulator_value);
        self.state.set_condition_code_flag(ConditionCodeFlag::Overflow, false);
        self.advance_program_counter(instruction_info.opcode_info.instruction_length);
    }

    /// ASL: shifts the operand left one bit; bit 7 falls into the carry.
    fn arithmetic_shift_left_handler(&mut self, instruction_info: &InstructionInfo)
        requires
            ready(*old(self), *instruction_info, Opcode::ArithmeticShiftLeft),
        ensures
            runs(*old(self), *final(self), *instruction_info),
    {
        let (result, extra_bit): (u8, bool) = if instruction_info.opcode_info.addressing_mode
            == AddressingMode::Accumulator {
            let target = self.operands_ref(instruction_info)[0];
            let accumulator_value = self.get_accumulator_value(target);
            let shifted = accumulator_value << 1;
            self.set_accumulator_value(target, shifted);
            (shifted, bit_at(accumulator_value, 7))
        } else {
            let memory_access_details = self.resolve_operand(instruction_info, 0);
            let value = memory_access_details.value.unwrap();
            let shifted = value << 1;
            self.write_to_memory(memory_access_details.address.unwrap(), shifted);
            (shifted, bit_at(value, 7))
        };

        self.set_negative_flag(result);
        self.set_zero_flag(result);
        self.state.set_condition_code_flag(ConditionCodeFlag::Carry, extra_bit);
        self.state.set_condition_code_flag(ConditionCodeFlag::Overflow, bit_at(result, 7) ^ extra_bit);
        self.advance_program_counter(instruction_info.opcode_info.instruction_length);
    }

    /// ASR: shifts the operand right one bit, preserving the sign bit;
    /// bit 0 falls into the carry.
    fn arithmetic_shift_right_handler(&mut self, instruction_info: &InstructionInfo)
        requires
            ready(*old(self), *instruction_info, Opcode::ArithmeticShiftRight),
        ensures
            runs(*old(self), *final(self), *instruction_info),
    {
        let (result, first_bit): (u8, bool) = if instruction_info.opcode_info.addressing_mode
            == AddressingMode::Accumulator {
            let target = self.operands_ref(instruction_info)[0];
            let accumulator_value = self.get_accumulator_value(target);
            let shifted = (accumulator_value >> 1) | (accumulator_value & 0x80);
            self.set_accumulator_value(target, shifted);
            (shifted, bit_at(accumulator_value, 0))
        } else {
            let memory_access_details = self.resolve_operand(instruction_info, 0);
            let value = memory_access_details.value.unwrap();
            let shifted = (value >> 1) | (value & 0x80);
            self.write_to_memory(memory_access_details.address.unwrap(), shifted);
            (shifted, bit_at(value, 0))
        };

        self.set_negative_flag(result);
        self.set_zero_flag(result);
        self.state.set_condition_code_flag(ConditionCodeFlag::Carry, first_bit);
        self.state.set_condition_code_flag(ConditionCodeFlag::Overflow, bit_at(result, 7) ^ first_bit);
        self.advance_program_counter(instruction_info.opcode_info.instruction_length);
    }

    /// LSR: shifts the operand right one bit, clearing bit 7; bit 0 falls
    /// into the carry and the negative flag always clears.
    fn logical_shift_right_handler(&mut self, instruction_info: &InstructionInfo)
        requires
            ready(*old(self), *instruction_info, Opcode::LogicalShiftRight),
        ensures
            runs(*old(self), *final(self), *instruction_info),
    {
        let (result, first_bit): (u8, bool) = if instruction_info.opcode_info.addressing_mode
            == AddressingMode::Accumulator {
            let target = self.operands_ref(instruction_info)[0];
            let accumulator_value = self.get_accumulator_value(target);
            let shifted = accumulator_value >> 1;
            self.set_accumulator_value(target, shifted);
            (shifted, bit_at(accumulator_value, 0))
        } else {
            let memory_access_details = self.resolve_operand(instruction_info, 0);
            let value = memory_access_details.value.unwrap();
            let shifted = value >> 1;
            self.write_to_memory(memory_access_details.address.unwrap(), shifted);
            (shifted, bit_at(value, 0))
        };

        self.set_negative_flag(result);
        self.set_zero_flag(result);
        self.state.set_condition_code_flag(ConditionCodeFlag::Carry, first_bit);
        self.state.set_condition_code_flag(ConditionCodeFlag::Overflow, bit_at(result, 7) ^ first_bit);
        self.advance_program_counter(instruction_info.opcode_info.instruction_length);
    }

    /// ROL: rotates the operand left one bit through the carry.
    fn rotate_left_handler(&mut self, instruction_info: &InstructionInfo)
        requires
            ready(*old(self), *instruction_info, Opcode::RotateLeft),
        ensures
            runs(*old(self), *final(self), *instruction_info),
    {
        let carry_in: u8 = if self.state.get_condition_code_flag(ConditionCodeFlag::Carry) {
            1
        } else {
            0
        };
        let (result, last_bit): (u8, bool) = if instruction_info.opcode_info.addressing_mode
            == AddressingMode::Accumulator {
            let target = self.operands_ref(instruction_info)[0];
            let accumulator_value = self.get_accumulator_value(target);
            let rotated = (accumulator_value << 1) | carry_in;
            self.set_accumulator_value(target, rotated);
            (rotated, bit_at(accumulator_value, 7))
        } else {
            let memory_access_details = self.resolve_operand(instruction_info, 0);
            let value = memory_access_details.value.unwrap();
            let rotated = (value << 1) | carry_in;
            self.write_to_memory(memory_access_details.address.unwrap(), rotated);
            (rotated, bit_at(value, 7))
        };

        self.set_negative_flag(result);
        self.set_zero_flag(result);
        self.state.set_condition_code_flag(ConditionCodeFlag::Carry, last_bit);
        self.state.set_condition_code_flag(ConditionCodeFlag::Overflow, bit_at(result, 7) ^ last_bit);
        self.advance_program_counter(instruction_info.opcode_info.instruction_length);
    }

    /// ROR: rotates the operand right one bit through the carry.
    fn rotate_right_handler(&mut self, instruction_info: &InstructionInfo)
        requires
            ready(*old(self), *instruction_info, Opcode::RotateRight),
        ensures
            runs(*old(self), *final(self), *instruction_info),
    {
        let carry_in: u8 = if self.state.get_condition_code_flag(ConditionCodeFlag::Carry) {
            0x80
        } else {
            0
        };
        let (result, first_bit): (u8, bool) = if instruction_info.opcode_info.addressing_mode
            == AddressingMode::Accumulator {
            let target = self.operands_ref(instruction_info)[0];
            let accumulator_value = self.get_accumulator_value(target);
            let rotated = (accumulator_value >> 1) | carry_in;
            self.set_accumulator_value(target, rotated);
            (rotated, bit_at(accumulator_value, 0))
        } else {
            let memory_access_details = self.resolve_operand(instruction_info, 0);
            let value = memory_access_details.value.unwrap();
            let rotated = (value >> 1) | carry_in;
            self.write_to_memory(memory_access_details.address.unwrap(), rotated);
            (rotated, bit_at(value, 0))
        };

        self.set_negative_flag(result);
        self.set_zero_flag(result);
        self.state.set_condition_code_flag(ConditionCodeFlag::Carry, first_bit);
        self.state.set_condition_code_flag(ConditionCodeFlag::Overflow, bit_at(result, 7) ^ first_bit);
        self.advance_program_counter(instruction_info.opcode_info.instruction_length);
    }

    /// NEG: replaces the operand with its two's complement.
    fn negate_handler(&mut self, instruction_info: &InstructionInfo)
        requires
            ready(*old(self), *instruction_info, Opcode::Negate),
        ensures
            runs(*old(self), *final(self), *instruction_info),
    {
        let result: u8 = if instruction_info.opcode_info.addressing_mode
            == AddressingMode::Accumulator {
            let target = self.operands_ref(instruction_info)[0];
            let accumulator_value = self.get_accumulator_value(target);
            let negated = (0u8).wrapping_sub(accumulator_value);
            self.set_accumulator_value(target, negated);
            negated
        } else {
            let memory_access_details = self.resolve_operand(instruction_info, 0);
            let negated = (0u8).wrapping_sub(memory_access_details.value.unwrap());
            self.write_to_memory(memory_access_details.address.unwrap(), negated);
            negated
        };

        self.set_negative_flag(result);
        self.set_zero_flag(result);
        self.state.set_condition_code_flag(ConditionCodeFlag::Carry, result != 0);
        self.state.set_condition_code_flag(ConditionCodeFlag::Overflow, result == 0x80);
        self.advance_program_counter(instruction_info.opcode_info.instruction_length);
    }

    /// COM: replaces the operand with its one's complement.
    fn complement_handler(&mut self, instruction_info: &InstructionInfo)
        requires
            ready(*old(self), *instruction_info, Opcode::Complement),
        ensures
            runs(*old(self), *final(self), *instruction_info),
    {
        let result: u8 = if instruction_info.opcode_info.addressing_mode
            == AddressingMode::Accumulator {
            let target = self.operands_ref(instruction_info)[0];
            let complemented = !self.get_accumulator_value(target);
            self.set_accumulator_value(target, complemented);
            complemented
        } else {
            let memory_access_details = self.resolve_operand(instruction_info, 0);
            let complemented = !memory_access_details.value.unwrap();
            self.write_to_memory(memory_access_details.address.unwrap(), complemented);
            complemented
        };

        self.set_negative_flag(result);
        self.set_zero_flag(result);
        self.state.set_condition_code_flag(ConditionCodeFlag::Carry, true);
        self.state.set_condition_code_flag(ConditionCodeFlag::Overflow, false);
        self.advance_program_counter(instruction_info.opcode_info.instruction_length);
    }

    /// INC: adds one to the operand; the carry is unaffected.
    fn increment_handler(&mut self, instruction_info: &InstructionInfo)
        requires
            ready(*old(self), *instruction_info, Opcode::Increment),
        ensures
            runs(*old(self), *final(self), *instruction_info),
    {
        let result: u8 = if instruction_info.opcode_info.addressing_mode
            == AddressingMode::Accumulator {
            let target = self.operands_ref(instruction_info)[0];
            let incremented = self.get_accumulator_value(target).wrapping_add(1);
            self.set_accumulator_value(target, incremented);
            incremented
        } else {
            let memory_access_details = self.resolve_operand(instruction_info, 0);
            let incremented = memory_access_details.value.unwrap().wrapping_add(1);
            self.write_to_memory(memory_access_details.address.unwrap(), incremented);
            incremented
        };

        self.set_negative_flag(result);
        self.set_zero_flag(result);
        self.state.set_condition_code_flag(ConditionCodeFlag::Overflow, result == 0x80);
        self.advance_program_counter(instruction_info.opcode_info.instruction_length);
    }

    /// DEC: subtracts one from the operand; the carry is unaffected.
    fn decrement_handler(&mut self, instruction_info: &InstructionInfo)
        requires
            ready(*old(self), *instruction_info, Opcode::Decrement),
        ensures
            runs(*old(self), *final(self), *instruction_info),
    {
        let result: u8 = if instruction_info.opcode_info.addressing_mode
            == AddressingMode::Accumulator {
            let target = self.operands_ref(instruction_info)[0];
            let decremented = self.get_accumulator_value(target).wrapping_sub(1);
            self.set_accumulator_value(target, decremented);
            decremented
        } else {
            let memory_access_details = self.resolve_operand(instruction_info, 0);
            let decremented = memory_access_details.value.unwrap().wrapping_sub(1);
            self.write_to_memory(memory_access_details.address.unwrap(), decremented);
            decremented
        };

        self.set_negative_flag(result);
        self.set_zero_flag(result);
        self.state.set_condition_code_flag(ConditionCodeFlag::Overflow, result == 0x7F);
        self.advance_program_counter(instruction_info.opcode_info.instruction_length);
    }

    /// TST: sets the flags from the operand without modifying anything.
    fn test_handler(&mut self, instruction_info: &InstructionInfo)
        requires
            ready(*old(self), *instruction_info, Opcode::Test),
        ensures
            runs(*old(self), *final(self), *instruction_info),
    {
        let result: u8 = if instruction_info.opcode_info.addressing_mode
            == AddressingMode::Accumulator {
            let target = self.operands_ref(instruction_info)[0];
            self.get_accumulator_value(target)
        } else {
            self.resolve_operand(instruction_info, 0).value.unwrap()
        };

        self.set_negative_flag(result);
        self.set_zero_flag(result);
        self.state.set_condition_code_flag(ConditionCodeFlag::Carry, false);
        self.state.set_condition_code_flag(ConditionCodeFlag::Overflow, false);
        self.advance_program_counter(instruction_info.opcode_info.instruction_length);
    }

    /// CLR: replaces the operand with zero and sets the flags accordingly.
    fn clear_handler(&mut self, instruction_info: &InstructionInfo)
        requires
            ready(*old(self), *instruction_info, Opcode::Clear),
        ensures
            runs(*old(self), *final(self), *instruction_info),
    {
        if instruction_info.opcode_info.addressing_mode == AddressingMode::Accumulator {
            let target = self.operands_ref(instruction_info)[0];
            self.set_accumulator_value(target, 0);
        } else {
            let memory_access_details = self.resolve_operand(instruction_info, 0);
            self.write_to_memory(memory_access_details.address.unwrap(), 0);
        }

        self.state.set_condition_code_flag(ConditionCodeFlag::Negative, false);
        self.state.set_condition_code_flag(ConditionCodeFlag::Zero, true);
        self.state.set_condition_code_flag(ConditionCodeFlag::Overflow, false);
        self.state.set_condition_code_flag(ConditionCodeFlag::Carry, false);
        self.advance_program_counter(instruction_info.opcode_info.instruction_length);
    }

    /// Takes a relative branch: the program counter moves to the branch
    /// target computed from the offset operand.
    fn branch(&mut self, instruction_info: &InstructionInfo)
        requires
            old(self).wf(),
            old(self).has_mem(),
            instruction_info.opcode_info.addressing_mode == AddressingMode::Relative,
            instruction_info.operands matches Some(ops) && ops@.len() == 1 && ops@[0] is Immediate8,
        ensures
            final(self).wf(),
            final(self).has_mem(),
            final(self).mem() == old(self).mem(),
            final(self).state == with_pc(
                old(self).state,
                branch_target(
                    old(self).state.program_counter,
                    instruction_info.operands->0@[0]->Immediate8_0,
                ),
            ),
    {
        let target = self.resolve_operand(instruction_info, 0).address.unwrap();

        self.state.program_counter = target;
    }

    /// A conditional branch: the program counter moves to the branch target
    /// when `condition` holds, and past the two instruction bytes otherwise.
    fn branch_conditionally_handler(&mut self, instruction_info: &InstructionInfo, condition: bool)
        requires
            old(self).wf(),
            old(self).has_mem(),
            instruction_info.opcode_info.addressing_mode == AddressingMode::Relative,
            instruction_info.operands matches Some(ops) && ops@.len() == 1 && ops@[0] is Immediate8,
        ensures
            final(self).wf(),
            final(self).has_mem(),
            final(self).mem() == old(self).mem(),
            final(self).state == with_pc(
                old(self).state,
                if condition {
                    branch_target(
                        old(self).state.program_counter,
                        instruction_info.operands->0@[0]->Immediate8_0,
                    )
                } else {
                    wrap_add16(old(self).state.program_counter, 2)
                },
            ),
    {
        if condition {
            self.branch(instruction_info);
        } else {
            self.advance_program_counter(2);
        }
    }

    /// BSR: pushes the return address (low byte, then high byte) and
    /// branches to the target.
    fn branch_to_subroutine_handler(&mut self, instruction_info: &InstructionInfo)
        requires
            ready(*old(self), *instruction_info, Opcode::BranchToSubroutine),
        ensures
            runs(*old(self), *final(self), *instruction_info),
    {
        let target = self.resolve_operand(instruction_info, 0).address.unwrap();
        let return_address = self.state.program_counter.wrapping_add(2);

        self.push((return_address & 0xff) as u8);
        self.push((return_address >> 8) as u8);
        self.state.program_counter = target;
    }

    /// JMP: the program counter moves to the effective address.
    fn jump_handler(&mut self, instruction_info: &InstructionInfo)
        requires
            ready(*old(self), *instruction_info, Opcode::Jump),
        ensures
            runs(*old(self), *final(self), *instruction_info),
    {
        let target: u16 = self.resolve_operand(instruction_info, 0).address.unwrap();

        self.state.program_counter = target;
    }

    /// JSR: pushes the return address (low byte, then high byte) and jumps
    /// to the effective address.
    fn jump_to_subroutine_handler(&mut self, instruction_info: &InstructionInfo)
        requires
            ready(*old(self), *instruction_info, Opcode::JumpToSubroutine),
        ensures
            runs(*old(self), *final(self), *instruction_info),
    {
        let target: u16 = self.resolve_operand(instruction_info, 0).address.unwrap();
        let return_address = self.state.program_counter.wrapping_add(
            instruction_info.opcode_info.instruction_length as u16,
        );

        self.push((return_address & 0xff) as u8);
        self.push((return_address >> 8) as u8);
        self.state.program_counter = target;
    }

    /// RTS: pulls the high byte, then the low byte, and composes them into
    /// the program counter.
    fn return_handler(&mut self, instruction_info: &InstructionInfo)
        requires
            ready(*old(self), *instruction_info, Opcode::Return),
        ensures
            runs(*old(self), *final(self), *instruction_info),
    {
        let program_counter_high = self.pop();
        let program_counter_low = self.pop();

        self.state.program_counter = ((program_counter_high as u16) << 8) | (program_counter_low
            as u16);
    }

    /// PSH: writes the named accumulator to the stack and moves the stack
    /// pointer down.
    fn push_handler(&mut self, instruction_info: &InstructionInfo)
        requires
            ready(*old(self), *instruction_info, Opcode::Push),
        ensures
            runs(*old(self), *final(self), *instruction_info),
    {
        let target = self.operands_ref(instruction_info)[0];
        let accumulator_value = self.get_accumulator_value(target);

        self.push(accumulator_value);
        self.advance_program_counter(instruction_info.opcode_info.instruction_length);
    }

    /// PUL: moves the stack pointer up and loads the byte it points at into
    /// the named accumulator; no flags change.
    fn pop_handler(&mut self, instruction_info: &InstructionInfo)
        requires
            ready(*old(self), *instruction_info, Opcode::Pop),
        ensures
            runs(*old(self), *final(self), *instruction_info),
    {
        let target = self.operands_ref(instruction_info)[0];
        let value = self.pop();

        self.set_accumulator_value(target, value);
        self.advance_program_counter(instruction_info.opcode_info.instruction_length);
    }

    /// TAB: copies accumulator A to B and sets the flags from the value.
    fn transfer_a_to_b_handler(&mut self, instruction_info: &InstructionInfo)
        requires
            ready(*old(self), *instruction_info, Opcode::TransferAToB),
        ensures
            runs(*old(self), *final(self), *instruction_info),
    {
        let value = self.state.accumulator_a;

        self.state.accumulator_b = value;
        self.set_negative_flag(value);
        self.set_zero_flag(value);
        self.state.set_condition_code_flag(ConditionCodeFlag::Overflow, false);
        self.advance_program_counter(instruction_info.opcode_info.instruction_length);
    }

    /// TBA: copies accumulator B to A and sets the flags from the value.
    fn transfer_b_to_a_handler(&mut self, instruction_info: &InstructionInfo)
        requires
            ready(*old(self), *instruction_info, Opcode::TransferBToA),
        ensures
            runs(*old(self), *final(self), *instruction_info),
    {
        let value = self.state.accumulator_b;

        self.state.accumulator_a = value;
        self.set_negative_flag(value);
        self.set_zero_flag(value);
        self.state.set_condition_code_flag(ConditionCodeFlag::Overflow, false);
        self.advance_program_counter(instruction_info.opcode_info.instruction_length);
    }

    /// TAP: copies accumulator A into the condition-code register.
    fn transfer_a_to_condition_codes_handler(&mut self, instruction_info: &InstructionInfo)
        requires
            ready(*old(self), *instruction_info, Opcode::TransferAToConditionCodes),
        ensures
            runs(*old(self), *final(self), *instruction_info),
    {
        self.state.condition_code_register = self.state.accumulator_a;
        self.advance_program_counter(instruction_info.opcode_info.instruction_length);
    }

    /// TPA: copies the condition-code register into accumulator A, with the
    /// two architecturally-unused high bits reading as one.
    fn transfer_condition_codes_to_a_handler(&mut self, instruction_info: &InstructionInfo)
        requires
            ready(*old(self), *instruction_info, Opcode::TransferConditionCodesToA),
        ensures
            runs(*old(self), *final(self), *instruction_info),
    {
        self.state.accumulator_a = self.state.condition_code_register | 0xC0;
        self.advance_program_counter(instruction_info.opcode_info.instruction_length);
    }

    /// TSX: the index register becomes the stack pointer plus one.
    fn transfer_stack_pointer_to_index_register_handler(
        &mut self,
        instruction_info: &InstructionInfo,
    )
        requires
            ready(*old(self), *instruction_info, Opcode::TransferStackPointerToIndexRegister),
        ensures
            runs(*old(self), *final(self), *instruction_info),
    {
        self.state.index_register = self.state.stack_pointer.wrapping_add(1);
        self.advance_program_counter(instruction_info.opcode_info.instruction_length);
    }

    /// TXS: the stack pointer becomes the index register minus one.
    fn transfer_index_register_to_stack_pointer_handler(
        &mut self,
        instruction_info: &InstructionInfo,
    )
        requires
            ready(*old(self), *instruction_info, Opcode::TransferIndexRegisterToStackPointer),
        ensures
            runs(*old(self), *final(self), *instruction_info),
    {
        self.state.stack_pointer = self.state.index_register.wrapping_sub(1);
        self.advance_program_counter(instruction_info.opcode_info.instruction_length);
    }

    /// INX: adds one to the index register; only the zero flag reacts.
    fn increment_index_register_handler(&mut self, instruction_info: &InstructionInfo)
        requires
            ready(*old(self), *instruction_info, Opcode::IncrementIndexRegister),
        ensures
            runs(*old(self), *final(self), *instruction_info),
    {
        let value = self.state.index_register.wrapping_add(1);

        self.state.index_register = value;
        self.state.set_condition_code_flag(ConditionCodeFlag::Zero, value == 0);
        self.advance_program_counter(instruction_info.opcode_info.instruction_length);
    }

    /// DEX: subtracts one from the index register; only the zero flag
    /// reacts.
    fn decrement_index_register_handler(&mut self, instruction_info: &InstructionInfo)
        requires
            ready(*old(self), *instruction_info, Opcode::DecrementIndexRegister),
        ensures
            runs(*old(self), *final(self), *instruction_info),
    {
        let value = self.state.index_register.wrapping_sub(1);

        self.state.index_register = value;
        self.state.set_condition_code_flag(ConditionCodeFlag::Zero, value == 0);
        self.advance_program_counter(instruction_info.opcode_info.instruction_length);
    }

    /// INS: adds one to the stack pointer; no flags change.
    fn increment_stack_pointer_handler(&mut self, instruction_info: &InstructionInfo)
        requires
            ready(*old(self), *instruction_info, Opcode::IncrementStackPointer),
        ensures
            runs(*old(self), *final(self), *instruction_info),
    {
        self.state.stack_pointer = self.state.stack_pointer.wrapping_add(1);
        self.advance_program_counter(instruction_info.opcode_info.instruction_length);
    }

    /// DES: subtracts one from the stack pointer; no flags change.
    fn decrement_stack_pointer_handler(&mut self, instruction_info: &InstructionInfo)
        requires
            ready(*old(self), *instruction_info, Opcode::DecrementStackPointer),
        ensures
            runs(*old(self), *final(self), *instruction_info),
    {
        self.state.stack_pointer = self.state.stack_pointer.wrapping_sub(1);
        self.advance_program_counter(instruction_info.opcode_info.instruction_length);
    }

    /// The 16-bit operand of an index-register or stack-pointer
    /// instruction: the immediate word itself, or the word in memory at the
    /// effective address.
    fn resolve_word_operand(&self, instruction_info: &InstructionInfo, operand_index: usize) -> (r:
        u16)
        requires
            self.wf(),
            self.has_mem(),
            instruction_info.operands matches Some(ops) && operand_index < ops@.len(),
            ({
                let mode = instruction_info.opcode_info.addressing_mode;
                let op = instruction_info.operands->0@[operand_index as int];
                &&& (mode == AddressingMode::Immediate || mode == AddressingMode::Direct || mode
                    == AddressingMode::Indexed || mode == AddressingMode::Extended)
                &&& (mode == AddressingMode::Immediate || mode == AddressingMode::Extended)
                    ==> op is Immediate16
                &&& (mode == AddressingMode::Direct || mode == AddressingMode::Indexed)
                    ==> op is Immediate8
            }),
        ensures
            ({
                let mode = instruction_info.opcode_info.addressing_mode;
                let op = instruction_info.operands->0@[operand_index as int];
                if mode == AddressingMode::Immediate {
                    r == op->Immediate16_0
                } else if mode == AddressingMode::Direct {
                    r == mem_word(self.mem(), op->Immediate8_0 as u16)
                } else if mode == AddressingMode::Indexed {
                    r == mem_word(
                        self.mem(),
                        wrap_add16(self.st().index_register, op->Immediate8_0 as u16),
                    )
                } else {
                    r == mem_word(self.mem(), op->Immediate16_0)
                }
            }),
    {
        if instruction_info.opcode_info.addressing_mode == AddressingMode::Immediate {
            match self.operands_ref(instruction_info)[operand_index] {
                OperandType::Immediate16(value) => value,
                _ => {
                    proof {
                        assert(false);
                    }
                    0
                },
            }
        } else {
            let operand_address = self.resolve_operand(instruction_info, operand_index).address.unwrap();
            self.read_word_from_memory(operand_address)
        }
    }

    /// CPX: compares the index register with the 16-bit operand; the carry
    /// is unaffected.
    fn compare_index_register_handler(&mut self, instruction_info: &InstructionInfo)
        requires
            ready(*old(self), *instruction_info, Opcode::CompareIndexRegister),
        ensures
            runs(*old(self), *final(self), *instruction_info),
    {
        let operand_value = self.resolve_word_operand(instruction_info, 1);
        let index_register = self.state.index_register;
        let result = index_register.wrapping_sub(operand_value);

        let index_register_high = (index_register >> 8) as u8;
        let operand_high = (operand_value >> 8) as u8;
        let result_high = (result >> 8) as u8;
        let overflow = (bit_at(index_register_high, 7) && !bit_at(result_high, 7) && !bit_at(
            operand_high,
            7,
        )) || (!bit_at(index_register_high, 7) && bit_at(operand_high, 7) && bit_at(result_high, 7));

        self.state.set_condition_code_flag(ConditionCodeFlag::Negative, bit16_at(result, 15));
        self.state.set_condition_code_flag(ConditionCodeFlag::Zero, result == 0);
        self.state.set_condition_code_flag(ConditionCodeFlag::Overflow, overflow);
        self.advance_program_counter(instruction_info.opcode_info.instruction_length);
    }

    /// LDS: loads the 16-bit operand into the stack pointer.
    fn load_stack_pointer_handler(&mut self, instruction_info: &InstructionInfo)
        requires
            ready(*old(self), *instruction_info, Opcode::LoadStackPointer),
        ensures
            runs(*old(self), *final(self), *instruction_info),
    {
        let value = self.resolve_word_operand(instruction_info, 0);

        self.state.stack_pointer = value;
        self.state.set_condition_code_flag(ConditionCodeFlag::Negative, bit16_at(value, 15));
        self.state.set_condition_code_flag(ConditionCodeFlag::Zero, value == 0);
        self.state.set_condition_code_flag(ConditionCodeFlag::Overflow, false);
        self.advance_program_counter(instruction_info.opcode_info.instruction_length);
    }

    /// LDX: loads the 16-bit operand into the index register.
    fn load_index_register_handler(&mut self, instruction_info: &InstructionInfo)
        requires
            ready(*old(self), *instruction_info, Opcode::LoadIndexRegister),
        ensures
            runs(*old(self), *final(self), *instruction_info),
    {
        let value = self.resolve_word_operand(instruction_info, 1);

        self.state.index_register = value;
        self.state.set_condition_code_flag(ConditionCodeFlag::Negative, bit16_at(value, 15));
        self.state.set_condition_code_flag(ConditionCodeFlag::Zero, value == 0);
        self.state.set_condition_code_flag(ConditionCodeFlag::Overflow, false);
        self.advance_program_counter(instruction_info.opcode_info.instruction_length);
    }

    /// STS: stores the stack pointer, high byte first, at the effective
    /// address.
    fn store_stack_pointer_handler(&mut self, instruction_info: &InstructionInfo)
        requires
            ready(*old(self), *instruction_info, Opcode::StoreStackPointer),
        ensures
            runs(*old(self), *final(self), *instruction_info),
    {
        let operand_address = self.resolve_operand(instruction_info, 0).address.unwrap();
        let value = self.state.stack_pointer;

        self.write_word_to_memory(operand_address, value);
        self.state.set_condition_code_flag(ConditionCodeFlag::Negative, bit16_at(value, 15));
        self.state.set_condition_code_flag(ConditionCodeFlag::Zero, value == 0);
        self.state.set_condition_code_flag(ConditionCodeFlag::Overflow, false);
        self.advance_program_counter(instruction_info.opcode_info.instruction_length);
    }

    /// STX: stores the index register, high byte first, at the effective
    /// address.
    fn store_index_register_handler(&mut self, instruction_info: &InstructionInfo)
        requires
            ready(*old(self), *instruction_info, Opcode::StoreIndexRegister),
        ensures
            runs(*old(self), *final(self), *instruction_info),
    {
        let operand_address = self.resolve_operand(instruction_info, 1).address.unwrap();
        let value = self.state.index_register;

        self.write_word_to_memory(operand_address, value);
        self.state.set_condition_code_flag(ConditionCodeFlag::Negative, bit16_at(value, 15));
        self.state.set_condition_code_flag(ConditionCodeFlag::Zero, value == 0);
        self.state.set_condition_code_flag(ConditionCodeFlag::Overflow, false);
        self.advance_program_counter(instruction_info.opcode_info.instruction_length);
    }

    /// DAA: decimal adjust is left unmodelled; only the program counter
    /// advances.
    fn decimal_adjust_a_handler(&mut self, instruction_info: &InstructionInfo)
        requires
            ready(*old(self), *instruction_info, Opcode::DecimalAdjustA),
        ensures
            runs(*old(self), *final(self), *instruction_info),
    {
        self.advance_program_counter(instruction_info.opcode_info.instruction_length);
    }

    /// Emulates one instruction at the current program counter: fetches the
    /// instruction window, decodes it, executes the instruction, and returns
    /// the descriptor that was executed.
    ///
    /// The whole step equals the machine model: on success the registers and
    /// memory land exactly where `step_spec` says, and on any error the
    /// state is unchanged.
    ///
    /// # Errors
    /// `NoMemoryManager` when no memory is bound, and `DisassemblyError`
    /// wrapping the decoder's verdict when the bytes at the program counter
    /// do not decode.
    pub fn emulate_instruction(&mut self) -> (r: Result<InstructionInfo, EmulationError>)
        requires
            old(self).wf(),
        ensures
            final(self).wf(),
            !old(self).has_mem() ==> r == Err::<InstructionInfo, EmulationError>(
                EmulationError::NoMemoryManager,
            ) && *final(self) == *old(self),
            old(self).has_mem() ==> match step_spec(old(self).st(), old(self).mem()) {
                Err(e) => r == Err::<InstructionInfo, EmulationError>(
                    EmulationError::DisassemblyError(e),
                ) && *final(self) == *old(self),
                Ok(m) => {
                    &&& final(self).has_mem()
                    &&& final(self).machine() == m
                    &&& r matches Ok(info) && {
                        let w = instruction_window(
                            old(self).mem(),
                            old(self).st().program_counter,
                        );
                        &&& Some(info.opcode_info) == opcode_table(w[0])
                        &&& info.operands matches Some(v) && v@ == operands_spec(
                            w[0],
                            byte_or_zero(w, 1),
                            byte_or_zero(w, 2),
                        )
                        &&& decoded_wf(info)
                    }
                },
            },
    {
        // Return an error if there is no memory manager defined
        if self.memory_manager.is_none() {
            return Err(EmulationError::NoMemoryManager);
        }

        let program_counter = self.state.program_counter;
        let remaining: usize = 65536 - program_counter as usize;
        let window_size: u16 = if remaining >= MAX_INSTRUCTION_LENGTH as usize {
            MAX_INSTRUCTION_LENGTH
        } else {
            remaining as u16
        };
        let data_stream: Vec<u8> = match &self.memory_manager {
            Some(memory_manager) => memory_manager.read(program_counter, window_size),
            None => {
                proof {
                    assert(false);
                }
                unreached()
            },
        };
        proof {
            assert(data_stream@ == instruction_window(self.mem(), program_counter));
        }

        let instruction_info = match disassemble_instruction(data_stream.as_slice()) {
            Ok(info) => info,
            Err(err) => {
                return Err(EmulationError::DisassemblyError(err));
            },
        };

        // Emulate the instruction based on the opcode
        match instruction_info.opcode_info.opcode {
            Opcode::Nop => self.advance_program_counter(
                instruction_info.opcode_info.instruction_length,
            ),
            Opcode::TransferAToConditionCodes => self.transfer_a_to_condition_codes_handler(
                &instruction_info,
            ),
            Opcode::TransferConditionCodesToA => self.transfer_condition_codes_to_a_handler(
                &instruction_info,
            ),
            Opcode::IncrementIndexRegister => self.increment_index_register_handler(
                &instruction_info,
            ),
            Opcode::DecrementIndexRegister => self.decrement_index_register_handler(
                &instruction_info,
            ),
            Opcode::ClearOverflowFlag => {
                self.state.set_condition_code_flag(ConditionCodeFlag::Overflow, false);
                self.advance_program_counter(instruction_info.opcode_info.instruction_length);
            },
            Opcode::SetOverflowFlag => {
                self.state.set_condition_code_flag(ConditionCodeFlag::Overflow, true);
                self.advance_program_counter(instruction_info.opcode_info.instruction_length);
            },
            Opcode::ClearCarryFlag => {
                self.state.set_condition_code_flag(ConditionCodeFlag::Carry, false);
                self.advance_program_counter(instruction_info.opcode_info.instruction_length);
            },
            Opcode::SetCarryFlag => {
                self.state.set_condition_code_flag(ConditionCodeFlag::Carry, true);
                self.advance_program_counter(instruction_info.opcode_info.instruction_length);
            },
            Opcode::ClearInterruptMask => {
                self.state.set_condition_code_flag(ConditionCodeFlag::InterruptMask, false);
                self.advance_program_counter(instruction_info.opcode_info.instruction_length);
            },
            Opcode::SetInterruptMask => {
                self.state.set_condition_code_flag(ConditionCodeFlag::InterruptMask, true);
                self.advance_program_counter(instruction_info.opcode_info.instruction_length);
            },
            Opcode::SubtractBFromA => self.subtract_accumulators_handler(&instruction_info),
            Opcode::CompareAAndB => self.compare_accumulators_handler(&instruction_info),
            Opcode::TransferAToB => self.transfer_a_to_b_handler(&instruction_info),
            Opcode::TransferBToA => self.transfer_b_to_a_handler(&instruction_info),
            Opcode::DecimalAdjustA => self.decimal_adjust_a_handler(&instruction_info),
            Opcode::AddBToA => self.add_b_to_a_handler(&instruction_info),
            Opcode::BranchUnconditional => self.branch(&instruction_info),
            Opcode::BranchIfCarryClear => {
                let condition = !self.state.get_condition_code_flag(ConditionCodeFlag::Carry);
                self.branch_conditionally_handler(&instruction_info, condition);
            },
            Opcode::BranchIfCarrySet => {
                let condition = self.state.get_condition_code_flag(ConditionCodeFlag::Carry);
                self.branch_conditionally_handler(&instruction_info, condition);
            },
            Opcode::BranchIfEqual => {
                let condition = self.state.get_condition_code_flag(ConditionCodeFlag::Zero);
                self.branch_conditionally_handler(&instruction_info, condition);
            },
            Opcode::BranchIfNotEqual => {
                let condition = !self.state.get_condition_code_flag(ConditionCodeFlag::Zero);
                self.branch_conditionally_handler(&instruction_info, condition);
            },
            Opcode::BranchIfMinus => {
                let condition = self.state.get_condition_code_flag(ConditionCodeFlag::Negative);
                self.branch_conditionally_handler(&instruction_info, condition);
            },
            Opcode::BranchIfPlus => {
                let condition = !self.state.get_condition_code_flag(ConditionCodeFlag::Negative);
                self.branch_conditionally_handler(&instruction_info, condition);
            },
            Opcode::BranchIfOverflowSet => {
                let condition = self.state.get_condition_code_flag(ConditionCodeFlag::Overflow);
                self.branch_conditionally_handler(&instruction_info, condition);
            },
            Opcode::BranchIfOverflowClear => {
                let condition = !self.state.get_condition_code_flag(ConditionCodeFlag::Overflow);
                self.branch_conditionally_handler(&instruction_info, condition);
            },
            Opcode::BranchIfHigherThan => {
                let condition = !(self.state.get_condition_code_flag(ConditionCodeFlag::Carry)
                    || self.state.get_condition_code_flag(ConditionCodeFlag::Zero));
                self.branch_conditionally_handler(&instruction_info, condition);
            },
            Opcode::BranchIfLowerThanEqual => {
                let condition = self.state.get_condition_code_flag(ConditionCodeFlag::Carry)
                    || self.state.get_condition_code_flag(ConditionCodeFlag::Zero);
                self.branch_conditionally_handler(&instruction_info, condition);
            },
            Opcode::BranchIfGreaterThanEqual => {
                let condition = !(self.state.get_condition_code_flag(ConditionCodeFlag::Negative)
                    ^ self.state.get_condition_code_flag(ConditionCodeFlag::Overflow));
                self.branch_conditionally_handler(&instruction_info, condition);
            },
            Opcode::BranchIfLessThan => {
                let condition = self.state.get_condition_code_flag(ConditionCodeFlag::Negative)
                    ^ self.state.get_condition_code_flag(ConditionCodeFlag::Overflow);
                self.branch_conditionally_handler(&instruction_info, condition);
            },
            Opcode::BranchIfGreaterThan => {
                let condition = !self.state.get_condition_code_flag(ConditionCodeFlag::Zero) && !(
                self.state.get_condition_code_flag(ConditionCodeFlag::Negative)
                    ^ self.state.get_condition_code_flag(ConditionCodeFlag::Overflow));
                self.branch_conditionally_handler(&instruction_info, condition);
            },
            Opcode::BranchIfLessThanEqual => {
                let condition = self.state.get_condition_code_flag(ConditionCodeFlag::Zero) || (
                self.state.get_condition_code_flag(ConditionCodeFlag::Negative)
                    ^ self.state.get_condition_code_flag(ConditionCodeFlag::Overflow));
                self.branch_conditionally_handler(&instruction_info, condition);
            },
            Opcode::BranchToSubroutine => self.branch_to_subroutine_handler(&instruction_info),
            Opcode::TransferStackPointerToIndexRegister => self
                .transfer_stack_pointer_to_index_register_handler(&instruction_info),
            Opcode::TransferIndexRegisterToStackPointer => self
                .transfer_index_register_to_stack_pointer_handler(&instruction_info),
            Opcode::IncrementStackPointer => self.increment_stack_pointer_handler(
                &instruction_info,
            ),
            Opcode::DecrementStackPointer => self.decrement_stack_pointer_handler(
                &instruction_info,
            ),
            Opcode::Push => self.push_handler(&instruction_info),
            Opcode::Pop => self.pop_handler(&instruction_info),
            Opcode::Return => self.return_handler(&instruction_info),
            Opcode::Negate => self.negate_handler(&instruction_info),
            Opcode::Complement => self.complement_handler(&instruction_info),
            Opcode::LogicalShiftRight => self.logical_shift_right_handler(&instruction_info),
            Opcode::RotateRight => self.rotate_right_handler(&instruction_info),
            Opcode::ArithmeticShiftRight => self.arithmetic_shift_right_handler(&instruction_info),
            Opcode::ArithmeticShiftLeft => self.arithmetic_shift_left_handler(&instruction_info),
            Opcode::RotateLeft => self.rotate_left_handler(&instruction_info),
            Opcode::Decrement => self.decrement_handler(&instruction_info),
            Opcode::Increment => self.increment_handler(&instruction_info),
            Opcode::Test => self.test_handler(&instruction_info),
            Opcode::Clear => self.clear_handler(&instruction_info),
            Opcode::Jump => self.jump_handler(&instruction_info),
            Opcode::JumpToSubroutine => self.jump_to_subroutine_handler(&instruction_info),
            Opcode::Subtract => self.subtract_handler(&instruction_info),
            Opcode::Compare => self.compare_handler(&instruction_info),
            Opcode::SubtractWithCarry => self.subtract_with_carry_handler(&instruction_info),
            Opcode::And => self.and_handler(&instruction_info),
            Opcode::BitTest => self.bit_test_handler(&instruction_info),
            Opcode::LoadAccumulator => self.load_accumulator_handler(&instruction_info),
            Opcode::StoreAccumulator => self.store_accumulator_handler(&instruction_info),
            Opcode::Xor => self.xor_handler(&instruction_info),
            Opcode::AddWithCarry => self.add_with_carry_handler(&instruction_info),
            Opcode::Or => self.or_handler(&instruction_info),
            Opcode::Add => self.add_handler(&instruction_info),
            Opcode::CompareIndexRegister => self.compare_index_register_handler(&instruction_info),
            Opcode::LoadStackPointer => self.load_stack_pointer_handler(&instruction_info),
            Opcode::StoreStackPointer => self.store_stack_pointer_handler(&instruction_info),
            Opcode::LoadIndexRegister => self.load_index_register_handler(&instruction_info),
            Opcode::StoreIndexRegister => self.store_index_register_handler(&instruction_info),
        };

        Ok(instruction_info)
    }
}

/// Whether bit `index` of the 16-bit `value` is set.
fn bit16_at(value: u16, index: u16) -> (r: bool)
    requires
        index < 16,
    ensures
        r == bit16_of(value, index),
{
    (value & (1u16 << index)) > 0
}

/// Whether bit `index` of `value` is set.
fn bit_at(value: u8, index: u8) -> (r: bool)
    requires
        index < 8,
    ensures
        r == bit_of(value, index),
{
    (value & (1u8 << index)) > 0
}

} // verus!
