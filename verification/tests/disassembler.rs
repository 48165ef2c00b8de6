use momulator::disassembler::{
    disassemble_instruction, AddressingMode, DisassemblyError, Opcode, OpcodeGroup, OperandType,
};

#[test]
fn test_substract_immediate8_instruction() {
    let sub_a_immediate: [u8; 2] = [0x80, 0x5];
    let sub_a_immediate_disassembly = disassemble_instruction(&sub_a_immediate);
    let sub_a_operands: Vec<OperandType>;

    // Make sure there were no errors
    assert_eq!(sub_a_immediate_disassembly.is_err(), false);
    let sub_a_immediate_disassembly = sub_a_immediate_disassembly.unwrap();

    // Test the instruction was disassembled correctly
    assert_eq!(sub_a_immediate_disassembly.opcode_info.opcode, Opcode::Subtract);
    assert_eq!(sub_a_immediate_disassembly.opcode_info.group, OpcodeGroup::Substract);
    assert_eq!(
        sub_a_immediate_disassembly.opcode_info.addressing_mode,
        AddressingMode::Immediate
    );
    assert_eq!(sub_a_immediate_disassembly.opcode_info.instruction_length, 2);
    assert_eq!(sub_a_immediate_disassembly.opcode_info.cycles, 2);
    assert_ne!(sub_a_immediate_disassembly.operands, None);
    sub_a_operands = sub_a_immediate_disassembly.operands.unwrap();
    assert_eq!(sub_a_operands.len(), 2);
    assert_eq!(sub_a_operands[0], OperandType::AccumulatorA);
    assert_eq!(sub_a_operands[1], OperandType::Immediate8(0x5));
}

#[test]
fn test_invalid_opcode_byte() {
    let result = disassemble_instruction(&[0x04]);
    assert_eq!(result.unwrap_err(), DisassemblyError::InvalidOpcodeByte);
}

#[test]
fn test_truncated_extended_instruction() {
    // An extended-mode instruction needs three bytes.
    let result = disassemble_instruction(&[0xB0, 0x12]);
    assert_eq!(result.unwrap_err(), DisassemblyError::MachineCodeTooShort);
}

#[test]
fn test_empty_window() {
    let result = disassemble_instruction(&[]);
    assert_eq!(result.unwrap_err(), DisassemblyError::MachineCodeTooShort);
}

#[test]
fn test_opcode_table_seed_examples() {
    let nop = disassemble_instruction(&[0x01]).unwrap();
    assert_eq!(nop.opcode_info.opcode, Opcode::Nop);
    assert_eq!(nop.opcode_info.addressing_mode, AddressingMode::Inherent);
    assert_eq!(nop.opcode_info.instruction_length, 1);
    assert_eq!(nop.opcode_info.cycles, 2);

    let sub_direct = disassemble_instruction(&[0x90, 0x44]).unwrap();
    assert_eq!(sub_direct.opcode_info.opcode, Opcode::Subtract);
    assert_eq!(sub_direct.opcode_info.addressing_mode, AddressingMode::Direct);
    assert_eq!(sub_direct.opcode_info.instruction_length, 2);
    assert_eq!(sub_direct.opcode_info.cycles, 3);

    let sub_indexed = disassemble_instruction(&[0xA0, 0x44]).unwrap();
    assert_eq!(sub_indexed.opcode_info.opcode, Opcode::Subtract);
    assert_eq!(sub_indexed.opcode_info.addressing_mode, AddressingMode::Indexed);
    assert_eq!(sub_indexed.opcode_info.instruction_length, 2);
    assert_eq!(sub_indexed.opcode_info.cycles, 5);

    let sub_extended = disassemble_instruction(&[0xB0, 0x12, 0x34]).unwrap();
    assert_eq!(sub_extended.opcode_info.opcode, Opcode::Subtract);
    assert_eq!(sub_extended.opcode_info.addressing_mode, AddressingMode::Extended);
    assert_eq!(sub_extended.opcode_info.instruction_length, 3);
    assert_eq!(sub_extended.opcode_info.cycles, 4);

    let branch = disassemble_instruction(&[0x20, 0xFE]).unwrap();
    assert_eq!(branch.opcode_info.opcode, Opcode::BranchUnconditional);
    assert_eq!(branch.opcode_info.addressing_mode, AddressingMode::Relative);
    assert_eq!(branch.opcode_info.instruction_length, 2);
    assert_eq!(branch.opcode_info.cycles, 4);
}

#[test]
fn test_extended_operand_bytes_are_big_endian() {
    let info = disassemble_instruction(&[0xB0, 0x12, 0x34]).unwrap();
    let operands = info.operands.unwrap();
    assert_eq!(operands.len(), 2);
    assert_eq!(operands[0], OperandType::AccumulatorA);
    assert_eq!(operands[1], OperandType::Immediate16(0x1234));
}

#[test]
fn test_accumulator_b_rows_name_accumulator_b() {
    let sub_b = disassemble_instruction(&[0xC0, 0x05]).unwrap();
    assert_eq!(sub_b.opcode_info.opcode, Opcode::Subtract);
    assert_eq!(sub_b.operands.unwrap()[0], OperandType::AccumulatorB);

    let clr_b = disassemble_instruction(&[0x5F]).unwrap();
    assert_eq!(clr_b.opcode_info.opcode, Opcode::Clear);
    assert_eq!(clr_b.opcode_info.addressing_mode, AddressingMode::Accumulator);
    assert_eq!(clr_b.operands.unwrap()[0], OperandType::AccumulatorB);
}

#[test]
fn test_relative_branch_offset_operand() {
    let info = disassemble_instruction(&[0x27, 0x10]).unwrap();
    assert_eq!(info.opcode_info.opcode, Opcode::BranchIfEqual);
    let operands = info.operands.unwrap();
    assert_eq!(operands.len(), 1);
    assert_eq!(operands[0], OperandType::Immediate8(0x10));
}

#[test]
fn test_interrupt_suite_bytes_are_invalid() {
    // SWI, WAI and RTI are not modelled; their bytes have no table entry.
    for byte in [0x3Bu8, 0x3E, 0x3F] {
        let result = disassemble_instruction(&[byte]);
        assert_eq!(result.unwrap_err(), DisassemblyError::InvalidOpcodeByte);
    }
}

#[test]
fn test_sixteen_bit_load_immediate_length() {
    let lds = disassemble_instruction(&[0x8E, 0x01, 0xFF]).unwrap();
    assert_eq!(lds.opcode_info.opcode, Opcode::LoadStackPointer);
    assert_eq!(lds.opcode_info.addressing_mode, AddressingMode::Immediate);
    assert_eq!(lds.opcode_info.instruction_length, 3);
    assert_eq!(lds.operands.unwrap()[0], OperandType::Immediate16(0x01FF));

    let ldx = disassemble_instruction(&[0xCE, 0xBE, 0xEF]).unwrap();
    assert_eq!(ldx.opcode_info.opcode, Opcode::LoadIndexRegister);
    assert_eq!(ldx.opcode_info.instruction_length, 3);
    let operands = ldx.operands.unwrap();
    assert_eq!(operands[0], OperandType::IndexRegister);
    assert_eq!(operands[1], OperandType::Immediate16(0xBEEF));
}
