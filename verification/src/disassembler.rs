//! Decoder: translates a byte window into a structured instruction
//! description — opcode identity, addressing mode, operand list, instruction
//! length and declared cycle count.
//!
//! The opcode table (`opcode_table`) is the authoritative map from the 256
//! possible first bytes to instruction descriptors, seeded from the Motorola
//! 6800 reference; bytes without an entry decode to `InvalidOpcodeByte`.

use vstd::prelude::*;

verus! {

/// Every 6800 instruction mnemonic handled by the emulator.
///
/// The hardware-interrupt suite (SWI, WAI, RTI) is not modelled; its opcode
/// bytes are treated as invalid.
#[derive(Clone, Copy, Debug, PartialEq, Eq, Structural)]
pub enum Opcode {
    Nop,
    TransferAToConditionCodes,
    TransferConditionCodesToA,
    IncrementIndexRegister,
    DecrementIndexRegister,
    ClearOverflowFlag,
    SetOverflowFlag,
    ClearCarryFlag,
    SetCarryFlag,
    ClearInterruptMask,
    SetInterruptMask,
    SubtractBFromA,
    CompareAAndB,
    TransferAToB,
    TransferBToA,
    DecimalAdjustA,
    AddBToA,
    BranchUnconditional,
    BranchIfHigherThan,
    BranchIfLowerThanEqual,
    BranchIfCarryClear,
    BranchIfCarrySet,
    BranchIfNotEqual,
    BranchIfEqual,
    BranchIfOverflowClear,
    BranchIfOverflowSet,
    BranchIfPlus,
    BranchIfMinus,
    BranchIfGreaterThanEqual,
    BranchIfLessThan,
    BranchIfGreaterThan,
    BranchIfLessThanEqual,
    TransferStackPointerToIndexRegister,
    IncrementStackPointer,
    Pop,
    DecrementStackPointer,
    TransferIndexRegisterToStackPointer,
    Push,
    Return,
    Negate,
    Complement,
    LogicalShiftRight,
    RotateRight,
    ArithmeticShiftRight,
    ArithmeticShiftLeft,
    RotateLeft,
    Decrement,
    Increment,
    Test,
    Clear,
    Jump,
    Subtract,
    Compare,
    SubtractWithCarry,
    And,
    BitTest,
    LoadAccumulator,
    Xor,
    AddWithCarry,
    Or,
    Add,
    CompareIndexRegister,
    BranchToSubroutine,
    LoadStackPointer,
    StoreAccumulator,
    StoreStackPointer,
    JumpToSubroutine,
    LoadIndexRegister,
    StoreIndexRegister,
}

/// How an instruction finds its operand.
#[derive(Clone, Copy, Debug, PartialEq, Eq, Structural)]
pub enum AddressingMode {
    /// No operand bytes; the instruction acts on implied state.
    Inherent,
    /// The operand is accumulator A or B.
    Accumulator,
    /// The operand bytes hold the value itself.
    Immediate,
    /// One operand byte holds a zero-page address.
    Direct,
    /// Two operand bytes hold a full 16-bit address, high byte first.
    Extended,
    /// One operand byte holds an offset added to the index register.
    Indexed,
    /// One operand byte holds a signed offset from the program counter.
    Relative,
}

/// A typed operand reference.  The first register-typed element of an
/// instruction's operand list names the destination; immediate elements carry
/// the raw displacement or address bytes exactly as they appeared in memory.
#[derive(Clone, Copy, Debug, PartialEq, Eq, Structural)]
pub enum OperandType {
    AccumulatorA,
    AccumulatorB,
    IndexRegister,
    ConditionCodeRegister,
    Immediate8(u8),
    Immediate16(u16),
}

/// Opcode groups that gather opcodes with different codes but similar meaning.
#[derive(Clone, Copy, Debug, PartialEq, Eq, Structural)]
pub enum OpcodeGroup {
    Substract,
    Add,
    Compare,
    Logical,
    ShiftRotate,
    IncrementRegister,
    DecrementRegister,
    ClearFlag,
    SetFlag,
    TransferRegisters,
    Load,
    Store,
    Branch,
    Jump,
    Stack,
    NoGroup,
}

/// Basic information about an opcode byte: what it does, how it addresses
/// its operand, how many bytes the instruction occupies and how many cycles
/// the hardware charges for it.
#[derive(Clone, Copy, Debug, PartialEq, Eq, Structural)]
pub struct OpcodeInfo {
    pub opcode: Opcode,
    pub group: OpcodeGroup,
    pub addressing_mode: AddressingMode,
    pub instruction_length: u8,
    pub cycles: u8,
}

/// The disassembled form of one instruction.
#[derive(Debug)]
pub struct InstructionInfo {
    pub opcode_info: OpcodeInfo,
    pub operands: Option<Vec<OperandType>>,
}

/// Errors that can arise during disassembly.
#[derive(Clone, Copy, Debug, PartialEq, Eq, Structural)]
pub enum DisassemblyError {
    /// The first byte of the window is not a recognized opcode byte.
    InvalidOpcodeByte,
    /// The window is shorter than the instruction's declared length.
    MachineCodeTooShort,
}

/// The authoritative 6800 instruction map: the descriptor for each of the
/// 256 possible first bytes, or `None` for bytes that are not opcodes.
pub open spec fn opcode_table(byte: u8) -> Option<OpcodeInfo> {
    match byte {
        0x01 => Some(OpcodeInfo { opcode: Opcode::Nop, group: OpcodeGroup::NoGroup, addressing_mode: AddressingMode::Inherent, instruction_length: 1, cycles: 2 }),
        0x06 => Some(OpcodeInfo { opcode: Opcode::TransferAToConditionCodes, group: OpcodeGroup::TransferRegisters, addressing_mode: AddressingMode::Inherent, instruction_length: 1, cycles: 2 }),
        0x07 => Some(OpcodeInfo { opcode: Opcode::TransferConditionCodesToA, group: OpcodeGroup::TransferRegisters, addressing_mode: AddressingMode::Inherent, instruction_length: 1, cycles: 2 }),
        0x08 => Some(OpcodeInfo { opcode: Opcode::IncrementIndexRegister, group: OpcodeGroup::IncrementRegister, addressing_mode: AddressingMode::Inherent, instruction_length: 1, cycles: 4 }),
        0x09 => Some(OpcodeInfo { opcode: Opcode::DecrementIndexRegister, group: OpcodeGroup::DecrementRegister, addressing_mode: AddressingMode::Inherent, instruction_length: 1, cycles: 4 }),
        0x0A => Some(OpcodeInfo { opcode: Opcode::ClearOverflowFlag, group: OpcodeGroup::ClearFlag, addressing_mode: AddressingMode::Inherent, instruction_length: 1, cycles: 2 }),
        0x0B => Some(OpcodeInfo { opcode: Opcode::SetOverflowFlag, group: OpcodeGroup::SetFlag, addressing_mode: AddressingMode::Inherent, instruction_length: 1, cycles: 2 }),
        0x0C => Some(OpcodeInfo { opcode: Opcode::ClearCarryFlag, group: OpcodeGroup::ClearFlag, addressing_mode: AddressingMode::Inherent, instruction_length: 1, cycles: 2 }),
        0x0D => Some(OpcodeInfo { opcode: Opcode::SetCarryFlag, group: OpcodeGroup::SetFlag, addressing_mode: AddressingMode::Inherent, instruction_length: 1, cycles: 2 }),
        0x0E => Some(OpcodeInfo { opcode: Opcode::ClearInterruptMask, group: OpcodeGroup::ClearFlag, addressing_mode: AddressingMode::Inherent, instruction_length: 1, cycles: 2 }),
        0x0F => Some(OpcodeInfo { opcode: Opcode::SetInterruptMask, group: OpcodeGroup::SetFlag, addressing_mode: AddressingMode::Inherent, instruction_length: 1, cycles: 2 }),
        0x10 => Some(OpcodeInfo { opcode: Opcode::SubtractBFromA, group: OpcodeGroup::Substract, addressing_mode: AddressingMode::Inherent, instruction_length: 1, cycles: 2 }),
        0x11 => Some(OpcodeInfo { opcode: Opcode::CompareAAndB, group: OpcodeGroup::Compare, addressing_mode: AddressingMode::Inherent, instruction_length: 1, cycles: 2 }),
        0x16 => Some(OpcodeInfo { opcode: Opcode::TransferAToB, group: OpcodeGroup::TransferRegisters, addressing_mode: AddressingMode::Inherent, instruction_length: 1, cycles: 2 }),
        0x17 => Some(OpcodeInfo { opcode: Opcode::TransferBToA, group: OpcodeGroup::TransferRegisters, addressing_mode: AddressingMode::Inherent, instruction_length: 1, cycles: 2 }),
        0x19 => Some(OpcodeInfo { opcode: Opcode::DecimalAdjustA, group: OpcodeGroup::NoGroup, addressing_mode: AddressingMode::Inherent, instruction_length: 1, cycles: 2 }),
        0x1B => Some(OpcodeInfo { opcode: Opcode::AddBToA, group: OpcodeGroup::Add, addressing_mode: AddressingMode::Inherent, instruction_length: 1, cycles: 2 }),
        0x20 => Some(OpcodeInfo { opcode: Opcode::BranchUnconditional, group: OpcodeGroup::Branch, addressing_mode: AddressingMode::Relative, instruction_length: 2, cycles: 4 }),
        0x22 => Some(OpcodeInfo { opcode: Opcode::BranchIfHigherThan, group: OpcodeGroup::Branch, addressing_mode: AddressingMode::Relative, instruction_length: 2, cycles: 4 }),
        0x23 => Some(OpcodeInfo { opcode: Opcode::BranchIfLowerThanEqual, group: OpcodeGroup::Branch, addressing_mode: AddressingMode::Relative, instruction_length: 2, cycles: 4 }),
        0x24 => Some(OpcodeInfo { opcode: Opcode::BranchIfCarryClear, group: OpcodeGroup::Branch, addressing_mode: AddressingMode::Relative, instruction_length: 2, cycles: 4 }),
        0x25 => Some(OpcodeInfo { opcode: Opcode::BranchIfCarrySet, group: OpcodeGroup::Branch, addressing_mode: AddressingMode::Relative, instruction_length: 2, cycles: 4 }),
        0x26 => Some(OpcodeInfo { opcode: Opcode::BranchIfNotEqual, group: OpcodeGroup::Branch, addressing_mode: AddressingMode::Relative, instruction_length: 2, cycles: 4 }),
        0x27 => Some(OpcodeInfo { opcode: Opcode::BranchIfEqual, group: OpcodeGroup::Branch, addressing_mode: AddressingMode::Relative, instruction_length: 2, cycles: 4 }),
        0x28 => Some(OpcodeInfo { opcode: Opcode::BranchIfOverflowClear, group: OpcodeGroup::Branch, addressing_mode: AddressingMode::Relative, instruction_length: 2, cycles: 4 }),
        0x29 => Some(OpcodeInfo { opcode: Opcode::BranchIfOverflowSet, group: OpcodeGroup::Branch, addressing_mode: AddressingMode::Relative, instruction_length: 2, cycles: 4 }),
        0x2A => Some(OpcodeInfo { opcode: Opcode::BranchIfPlus, group: OpcodeGroup::Branch, addressing_mode: AddressingMode::Relative, instruction_length: 2, cycles: 4 }),
        0x2B => Some(OpcodeInfo { opcode: Opcode::BranchIfMinus, group: OpcodeGroup::Branch, addressing_mode: AddressingMode::Relative, instruction_length: 2, cycles: 4 }),
        0x2C => Some(OpcodeInfo { opcode: Opcode::BranchIfGreaterThanEqual, group: OpcodeGroup::Branch, addressing_mode: AddressingMode::Relative, instruction_length: 2, cycles: 4 }),
        0x2D => Some(OpcodeInfo { opcode: Opcode::BranchIfLessThan, group: OpcodeGroup::Branch, addressing_mode: AddressingMode::Relative, instruction_length: 2, cycles: 4 }),
        0x2E => Some(OpcodeInfo { opcode: Opcode::BranchIfGreaterThan, group: OpcodeGroup::Branch, addressing_mode: AddressingMode::Relative, instruction_length: 2, cycles: 4 }),
        0x2F => Some(OpcodeInfo { opcode: Opcode::BranchIfLessThanEqual, group: OpcodeGroup::Branch, addressing_mode: AddressingMode::Relative, instruction_length: 2, cycles: 4 }),
        0x30 => Some(OpcodeInfo { opcode: Opcode::TransferStackPointerToIndexRegister, group: OpcodeGroup::TransferRegisters, addressing_mode: AddressingMode::Inherent, instruction_length: 1, cycles: 4 }),
        0x31 => Some(OpcodeInfo { opcode: Opcode::IncrementStackPointer, group: OpcodeGroup::IncrementRegister, addressing_mode: AddressingMode::Inherent, instruction_length: 1, cycles: 4 }),
        0x32 => Some(OpcodeInfo { opcode: Opcode::Pop, group: OpcodeGroup::Stack, addressing_mode: AddressingMode::Inherent, instruction_length: 1, cycles: 4 }),
        0x33 => Some(OpcodeInfo { opcode: Opcode::Pop, group: OpcodeGroup::Stack, addressing_mode: AddressingMode::Inherent, instruction_length: 1, cycles: 4 }),
        0x34 => Some(OpcodeInfo { opcode: Opcode::DecrementStackPointer, group: OpcodeGroup::DecrementRegister, addressing_mode: AddressingMode::Inherent, instruction_length: 1, cycles: 4 }),
        0x35 => Some(OpcodeInfo { opcode: Opcode::TransferIndexRegisterToStackPointer, group: OpcodeGroup::TransferRegisters, addressing_mode: AddressingMode::Inherent, instruction_length: 1, cycles: 4 }),
        0x36 => Some(OpcodeInfo { opcode: Opcode::Push, group: OpcodeGroup::Stack, addressing_mode: AddressingMode::Inherent, instruction_length: 1, cycles: 4 }),
        0x37 => Some(OpcodeInfo { opcode: Opcode::Push, group: OpcodeGroup::Stack, addressing_mode: AddressingMode::Inherent, instruction_length: 1, cycles: 4 }),
        0x39 => Some(OpcodeInfo { opcode: Opcode::Return, group: OpcodeGroup::NoGroup, addressing_mode: AddressingMode::Inherent, instruction_length: 1, cycles: 5 }),
        0x40 => Some(OpcodeInfo { opcode: Opcode::Negate, group: OpcodeGroup::NoGroup, addressing_mode: AddressingMode::Accumulator, instruction_length: 1, cycles: 2 }),
        0x43 => Some(OpcodeInfo { opcode: Opcode::Complement, group: OpcodeGroup::Logical, addressing_mode: AddressingMode::Accumulator, instruction_length: 1, cycles: 2 }),
        0x44 => Some(OpcodeInfo { opcode: Opcode::LogicalShiftRight, group: OpcodeGroup::ShiftRotate, addressing_mode: AddressingMode::Accumulator, instruction_length: 1, cycles: 2 }),
        0x46 => Some(OpcodeInfo { opcode: Opcode::RotateRight, group: OpcodeGroup::ShiftRotate, addressing_mode: AddressingMode::Accumulator, instruction_length: 1, cycles: 2 }),
        0x47 => Some(OpcodeInfo { opcode: Opcode::ArithmeticShiftRight, group: OpcodeGroup::ShiftRotate, addressing_mode: AddressingMode::Accumulator, instruction_length: 1, cycles: 2 }),
        0x48 => Some(OpcodeInfo { opcode: Opcode::ArithmeticShiftLeft, group: OpcodeGroup::ShiftRotate, addressing_mode: AddressingMode::Accumulator, instruction_length: 1, cycles: 2 }),
        0x49 => Some(OpcodeInfo { opcode: Opcode::RotateLeft, group: OpcodeGroup::ShiftRotate, addressing_mode: AddressingMode::Accumulator, instruction_length: 1, cycles: 2 }),
        0x4A => Some(OpcodeInfo { opcode: Opcode::Decrement, group: OpcodeGroup::DecrementRegister, addressing_mode: AddressingMode::Accumulator, instruction_length: 1, cycles: 2 }),
        0x4C => Some(OpcodeInfo { opcode: Opcode::Increment, group: OpcodeGroup::IncrementRegister, addressing_mode: AddressingMode::Accumulator, instruction_length: 1, cycles: 2 }),
        0x4D => Some(OpcodeInfo { opcode: Opcode::Test, group: OpcodeGroup::Logical, addressing_mode: AddressingMode::Accumulator, instruction_length: 1, cycles: 2 }),
        0x4F => Some(OpcodeInfo { opcode: Opcode::Clear, group: OpcodeGroup::NoGroup, addressing_mode: AddressingMode::Accumulator, instruction_length: 1, cycles: 2 }),
        0x50 => Some(OpcodeInfo { opcode: Opcode::Negate, group: OpcodeGroup::NoGroup, addressing_mode: AddressingMode::Accumulator, instruction_length: 1, cycles: 2 }),
        0x53 => Some(OpcodeInfo { opcode: Opcode::Complement, group: OpcodeGroup::Logical, addressing_mode: AddressingMode::Accumulator, instruction_length: 1, cycles: 2 }),
        0x54 => Some(OpcodeInfo { opcode: Opcode::LogicalShiftRight, group: OpcodeGroup::ShiftRotate, addressing_mode: AddressingMode::Accumulator, instruction_length: 1, cycles: 2 }),
        0x56 => Some(OpcodeInfo { opcode: Opcode::RotateRight, group: OpcodeGroup::ShiftRotate, addressing_mode: AddressingMode::Accumulator, instruction_length: 1, cycles: 2 }),
        0x57 => Some(OpcodeInfo { opcode: Opcode::ArithmeticShiftRight, group: OpcodeGroup::ShiftRotate, addressing_mode: AddressingMode::Accumulator, instruction_length: 1, cycles: 2 }),
        0x58 => Some(OpcodeInfo { opcode: Opcode::ArithmeticShiftLeft, group: OpcodeGroup::ShiftRotate, addressing_mode: AddressingMode::Accumulator, instruction_length: 1, cycles: 2 }),
        0x59 => Some(OpcodeInfo { opcode: Opcode::RotateLeft, group: OpcodeGroup::ShiftRotate, addressing_mode: AddressingMode::Accumulator, instruction_length: 1, cycles: 2 }),
        0x5A => Some(OpcodeInfo { opcode: Opcode::Decrement, group: OpcodeGroup::DecrementRegister, addressing_mode: AddressingMode::Accumulator, instruction_length: 1, cycles: 2 }),
        0x5C => Some(OpcodeInfo { opcode: Opcode::Increment, group: OpcodeGroup::IncrementRegister, addressing_mode: AddressingMode::Accumulator, instruction_length: 1, cycles: 2 }),
        0x5D => Some(OpcodeInfo { opcode: Opcode::Test, group: OpcodeGroup::Logical, addressing_mode: AddressingMode::Accumulator, instruction_length: 1, cycles: 2 }),
        0x5F => Some(OpcodeInfo { opcode: Opcode::Clear, group: OpcodeGroup::NoGroup, addressing_mode: AddressingMode::Accumulator, instruction_length: 1, cycles: 2 }),
        0x60 => Some(OpcodeInfo { opcode: Opcode::Negate, group: OpcodeGroup::NoGroup, addressing_mode: AddressingMode::Indexed, instruction_length: 2, cycles: 7 }),
        0x63 => Some(OpcodeInfo { opcode: Opcode::Complement, group: OpcodeGroup::Logical, addressing_mode: AddressingMode::Indexed, instruction_length: 2, cycles: 7 }),
        0x64 => Some(OpcodeInfo { opcode: Opcode::LogicalShiftRight, group: OpcodeGroup::ShiftRotate, addressing_mode: AddressingMode::Indexed, instruction_length: 2, cycles: 7 }),
        0x66 => Some(OpcodeInfo { opcode: Opcode::RotateRight, group: OpcodeGroup::ShiftRotate, addressing_mode: AddressingMode::Indexed, instruction_length: 2, cycles: 7 }),
        0x67 => Some(OpcodeInfo { opcode: Opcode::ArithmeticShiftRight, group: OpcodeGroup::ShiftRotate, addressing_mode: AddressingMode::Indexed, instruction_length: 2, cycles: 7 }),
        0x68 => Some(OpcodeInfo { opcode: Opcode::ArithmeticShiftLeft, group: OpcodeGroup::ShiftRotate, addressing_mode: AddressingMode::Indexed, instruction_length: 2, cycles: 7 }),
        0x69 => Some(OpcodeInfo { opcode: Opcode::RotateLeft, group: OpcodeGroup::ShiftRotate, addressing_mode: AddressingMode::Indexed, instruction_length: 2, cycles: 7 }),
        0x6A => Some(OpcodeInfo { opcode: Opcode::Decrement, group: OpcodeGroup::DecrementRegister, addressing_mode: AddressingMode::Indexed, instruction_length: 2, cycles: 7 }),
        0x6C => Some(OpcodeInfo { opcode: Opcode::Increment, group: OpcodeGroup::IncrementRegister, addressing_mode: AddressingMode::Indexed, instruction_length: 2, cycles: 7 }),
        0x6D => Some(OpcodeInfo { opcode: Opcode::Test, group: OpcodeGroup::Logical, addressing_mode: AddressingMode::Indexed, instruction_length: 2, cycles: 7 }),
        0x6E => Some(OpcodeInfo { opcode: Opcode::Jump, group: OpcodeGroup::Jump, addressing_mode: AddressingMode::Indexed, instruction_length: 2, cycles: 4 }),
        0x6F => Some(OpcodeInfo { opcode: Opcode::Clear, group: OpcodeGroup::NoGroup, addressing_mode: AddressingMode::Indexed, instruction_length: 2, cycles: 7 }),
        0x70 => Some(OpcodeInfo { opcode: Opcode::Negate, group: OpcodeGroup::NoGroup, addressing_mode: AddressingMode::Extended, instruction_length: 3, cycles: 6 }),
        0x73 => Some(OpcodeInfo { opcode: Opcode::Complement, group: OpcodeGroup::Logical, addressing_mode: AddressingMode::Extended, instruction_length: 3, cycles: 6 }),
        0x74 => Some(OpcodeInfo { opcode: Opcode::LogicalShiftRight, group: OpcodeGroup::ShiftRotate, addressing_mode: AddressingMode::Extended, instruction_length: 3, cycles: 6 }),
        0x76 => Some(OpcodeInfo { opcode: Opcode::RotateRight, group: OpcodeGroup::ShiftRotate, addressing_mode: AddressingMode::Extended, instruction_length: 3, cycles: 6 }),
        0x77 => Some(OpcodeInfo { opcode: Opcode::ArithmeticShiftRight, group: OpcodeGroup::ShiftRotate, addressing_mode: AddressingMode::Extended, instruction_length: 3, cycles: 6 }),
        0x78 => Some(OpcodeInfo { opcode: Opcode::ArithmeticShiftLeft, group: OpcodeGroup::ShiftRotate, addressing_mode: AddressingMode::Extended, instruction_length: 3, cycles: 6 }),
        0x79 => Some(OpcodeInfo { opcode: Opcode::RotateLeft, group: OpcodeGroup::ShiftRotate, addressing_mode: AddressingMode::Extended, instruction_length: 3, cycles: 6 }),
        0x7A => Some(OpcodeInfo { opcode: Opcode::Decrement, group: OpcodeGroup::DecrementRegister, addressing_mode: AddressingMode::Extended, instruction_length: 3, cycles: 6 }),
        0x7C => Some(OpcodeInfo { opcode: Opcode::Increment, group: OpcodeGroup::IncrementRegister, addressing_mode: AddressingMode::Extended, instruction_length: 3, cycles: 6 }),
        0x7D => Some(OpcodeInfo { opcode: Opcode::Test, group: OpcodeGroup::Logical, addressing_mode: AddressingMode::Extended, instruction_length: 3, cycles: 6 }),
        0x7E => Some(OpcodeInfo { opcode: Opcode::Jump, group: OpcodeGroup::Jump, addressing_mode: AddressingMode::Extended, instruction_length: 3, cycles: 3 }),
        0x7F => Some(OpcodeInfo { opcode: Opcode::Clear, group: OpcodeGroup::NoGroup, addressing_mode: AddressingMode::Extended, instruction_length: 3, cycles: 6 }),
        0x80 => Some(OpcodeInfo { opcode: Opcode::Subtract, group: OpcodeGroup::Substract, addressing_mode: AddressingMode::Immediate, instruction_length: 2, cycles: 2 }),
        0x81 => Some(OpcodeInfo { opcode: Opcode::Compare, group: OpcodeGroup::Compare, addressing_mode: AddressingMode::Immediate, instruction_length: 2, cycles: 2 }),
        0x82 => Some(OpcodeInfo { opcode: Opcode::SubtractWithCarry, group: OpcodeGroup::Substract, addressing_mode: AddressingMode::Immediate, instruction_length: 2, cycles: 2 }),
        0x84 => Some(OpcodeInfo { opcode: Opcode::And, group: OpcodeGroup::Logical, addressing_mode: AddressingMode::Immediate, instruction_length: 2, cycles: 2 }),
        0x85 => Some(OpcodeInfo { opcode: Opcode::BitTest, group: OpcodeGroup::Logical, addressing_mode: AddressingMode::Immediate, instruction_length: 2, cycles: 2 }),
        0x86 => Some(OpcodeInfo { opcode: Opcode::LoadAccumulator, group: OpcodeGroup::Load, addressing_mode: AddressingMode::Immediate, instruction_length: 2, cycles: 2 }),
        0x88 => Some(OpcodeInfo { opcode: Opcode::Xor, group: OpcodeGroup::Logical, addressing_mode: AddressingMode::Immediate, instruction_length: 2, cycles: 2 }),
        0x89 => Some(OpcodeInfo { opcode: Opcode::AddWithCarry, group: OpcodeGroup::Add, addressing_mode: AddressingMode::Immediate, instruction_length: 2, cycles: 2 }),
        0x8A => Some(OpcodeInfo { opcode: Opcode::Or, group: OpcodeGroup::Logical, addressing_mode: AddressingMode::Immediate, instruction_length: 2, cycles: 2 }),
        0x8B => Some(OpcodeInfo { opcode: Opcode::Add, group: OpcodeGroup::Add, addressing_mode: AddressingMode::Immediate, instruction_length: 2, cycles: 2 }),
        0x8C => Some(OpcodeInfo { opcode: Opcode::CompareIndexRegister, group: OpcodeGroup::Compare, addressing_mode: AddressingMode::Immediate, instruction_length: 3, cycles: 3 }),
        0x8D => Some(OpcodeInfo { opcode: Opcode::BranchToSubroutine, group: OpcodeGroup::Branch, addressing_mode: AddressingMode::Relative, instruction_length: 2, cycles: 8 }),
        0x8E => Some(OpcodeInfo { opcode: Opcode::LoadStackPointer, group: OpcodeGroup::Load, addressing_mode: AddressingMode::Immediate, instruction_length: 3, cycles: 3 }),
        0x90 => Some(OpcodeInfo { opcode: Opcode::Subtract, group: OpcodeGroup::Substract, addressing_mode: AddressingMode::Direct, instruction_length: 2, cycles: 3 }),
        0x91 => Some(OpcodeInfo { opcode: Opcode::Compare, group: OpcodeGroup::Compare, addressing_mode: AddressingMode::Direct, instruction_length: 2, cycles: 3 }),
        0x92 => Some(OpcodeInfo { opcode: Opcode::SubtractWithCarry, group: OpcodeGroup::Substract, addressing_mode: AddressingMode::Direct, instruction_length: 2, cycles: 3 }),
        0x94 => Some(OpcodeInfo { opcode: Opcode::And, group: OpcodeGroup::Logical, addressing_mode: AddressingMode::Direct, instruction_length: 2, cycles: 3 }),
        0x95 => Some(OpcodeInfo { opcode: Opcode::BitTest, group: OpcodeGroup::Logical, addressing_mode: AddressingMode::Direct, instruction_length: 2, cycles: 3 }),
        0x96 => Some(OpcodeInfo { opcode: Opcode::LoadAccumulator, group: OpcodeGroup::Load, addressing_mode: AddressingMode::Direct, instruction_length: 2, cycles: 3 }),
        0x97 => Some(OpcodeInfo { opcode: Opcode::StoreAccumulator, group: OpcodeGroup::Store, addressing_mode: AddressingMode::Direct, instruction_length: 2, cycles: 4 }),
        0x98 => Some(OpcodeInfo { opcode: Opcode::Xor, group: OpcodeGroup::Logical, addressing_mode: AddressingMode::Direct, instruction_length: 2, cycles: 3 }),
        0x99 => Some(OpcodeInfo { opcode: Opcode::AddWithCarry, group: OpcodeGroup::Add, addressing_mode: AddressingMode::Direct, instruction_length: 2, cycles: 3 }),
        0x9A => Some(OpcodeInfo { opcode: Opcode::Or, group: OpcodeGroup::Logical, addressing_mode: AddressingMode::Direct, instruction_length: 2, cycles: 3 }),
        0x9B => Some(OpcodeInfo { opcode: Opcode::Add, group: OpcodeGroup::Add, addressing_mode: AddressingMode::Direct, instruction_length: 2, cycles: 3 }),
        0x9C => Some(OpcodeInfo { opcode: Opcode::CompareIndexRegister, group: OpcodeGroup::Compare, addressing_mode: AddressingMode::Direct, instruction_length: 2, cycles: 4 }),
        0x9E => Some(OpcodeInfo { opcode: Opcode::LoadStackPointer, group: OpcodeGroup::Load, addressing_mode: AddressingMode::Direct, instruction_length: 2, cycles: 4 }),
        0x9F => Some(OpcodeInfo { opcode: Opcode::StoreStackPointer, group: OpcodeGroup::Store, addressing_mode: AddressingMode::Direct, instruction_length: 2, cycles: 5 }),
        0xA0 => Some(OpcodeInfo { opcode: Opcode::Subtract, group: OpcodeGroup::Substract, addressing_mode: AddressingMode::Indexed, instruction_length: 2, cycles: 5 }),
        0xA1 => Some(OpcodeInfo { opcode: Opcode::Compare, group: OpcodeGroup::Compare, addressing_mode: AddressingMode::Indexed, instruction_length: 2, cycles: 5 }),
        0xA2 => Some(OpcodeInfo { opcode: Opcode::SubtractWithCarry, group: OpcodeGroup::Substract, addressing_mode: AddressingMode::Indexed, instruction_length: 2, cycles: 5 }),
        0xA4 => Some(OpcodeInfo { opcode: Opcode::And, group: OpcodeGroup::Logical, addressing_mode: AddressingMode::Indexed, instruction_length: 2, cycles: 5 }),
        0xA5 => Some(OpcodeInfo { opcode: Opcode::BitTest, group: OpcodeGroup::Logical, addressing_mode: AddressingMode::Indexed, instruction_length: 2, cycles: 5 }),
        0xA6 => Some(OpcodeInfo { opcode: Opcode::LoadAccumulator, group: OpcodeGroup::Load, addressing_mode: AddressingMode::Indexed, instruction_length: 2, cycles: 5 }),
        0xA7 => Some(OpcodeInfo { opcode: Opcode::StoreAccumulator, group: OpcodeGroup::Store, addressing_mode: AddressingMode::Indexed, instruction_length: 2, cycles: 6 }),
        0xA8 => Some(OpcodeInfo { opcode: Opcode::Xor, group: OpcodeGroup::Logical, addressing_mode: AddressingMode::Indexed, instruction_length: 2, cycles: 5 }),
        0xA9 => Some(OpcodeInfo { opcode: Opcode::AddWithCarry, group: OpcodeGroup::Add, addressing_mode: AddressingMode::Indexed, instruction_length: 2, cycles: 5 }),
        0xAA => Some(OpcodeInfo { opcode: Opcode::Or, group: OpcodeGroup::Logical, addressing_mode: AddressingMode::Indexed, instruction_length: 2, cycles: 5 }),
        0xAB => Some(OpcodeInfo { opcode: Opcode::Add, group: OpcodeGroup::Add, addressing_mode: AddressingMode::Indexed, instruction_length: 2, cycles: 5 }),
        0xAC => Some(OpcodeInfo { opcode: Opcode::CompareIndexRegister, group: OpcodeGroup::Compare, addressing_mode: AddressingMode::Indexed, instruction_length: 2, cycles: 6 }),
        0xAD => Some(OpcodeInfo { opcode: Opcode::JumpToSubroutine, group: OpcodeGroup::Jump, addressing_mode: AddressingMode::Indexed, instruction_length: 2, cycles: 8 }),
        0xAE => Some(OpcodeInfo { opcode: Opcode::LoadStackPointer, group: OpcodeGroup::Load, addressing_mode: AddressingMode::Indexed, instruction_length: 2, cycles: 6 }),
        0xAF => Some(OpcodeInfo { opcode: Opcode::StoreStackPointer, group: OpcodeGroup::Store, addressing_mode: AddressingMode::Indexed, instruction_length: 2, cycles: 7 }),
        0xB0 => Some(OpcodeInfo { opcode: Opcode::Subtract, group: OpcodeGroup::Substract, addressing_mode: AddressingMode::Extended, instruction_length: 3, cycles: 4 }),
        0xB1 => Some(OpcodeInfo { opcode: Opcode::Compare, group: OpcodeGroup::Compare, addressing_mode: AddressingMode::Extended, instruction_length: 3, cycles: 4 }),
        0xB2 => Some(OpcodeInfo { opcode: Opcode::SubtractWithCarry, group: OpcodeGroup::Substract, addressing_mode: AddressingMode::Extended, instruction_length: 3, cycles: 4 }),
        0xB4 => Some(OpcodeInfo { opcode: Opcode::And, group: OpcodeGroup::Logical, addressing_mode: AddressingMode::Extended, instruction_length: 3, cycles: 4 }),
        0xB5 => Some(OpcodeInfo { opcode: Opcode::BitTest, group: OpcodeGroup::Logical, addressing_mode: AddressingMode::Extended, instruction_length: 3, cycles: 4 }),
        0xB6 => Some(OpcodeInfo { opcode: Opcode::LoadAccumulator, group: OpcodeGroup::Load, addressing_mode: AddressingMode::Extended, instruction_length: 3, cycles: 4 }),
        0xB7 => Some(OpcodeInfo { opcode: Opcode::StoreAccumulator, group: OpcodeGroup::Store, addressing_mode: AddressingMode::Extended, instruction_length: 3, cycles: 5 }),
        0xB8 => Some(OpcodeInfo { opcode: Opcode::Xor, group: OpcodeGroup::Logical, addressing_mode: AddressingMode::Extended, instruction_length: 3, cycles: 4 }),
        0xB9 => Some(OpcodeInfo { opcode: Opcode::AddWithCarry, group: OpcodeGroup::Add, addressing_mode: AddressingMode::Extended, instruction_length: 3, cycles: 4 }),
        0xBA => Some(OpcodeInfo { opcode: Opcode::Or, group: OpcodeGroup::Logical, addressing_mode: AddressingMode::Extended, instruction_length: 3, cycles: 4 }),
        0xBB => Some(OpcodeInfo { opcode: Opcode::Add, group: OpcodeGroup::Add, addressing_mode: AddressingMode::Extended, instruction_length: 3, cycles: 4 }),
        0xBC => Some(OpcodeInfo { opcode: Opcode::CompareIndexRegister, group: OpcodeGroup::Compare, addressing_mode: AddressingMode::Extended, instruction_length: 3, cycles: 5 }),
        0xBD => Some(OpcodeInfo { opcode: Opcode::JumpToSubroutine, group: OpcodeGroup::Jump, addressing_mode: AddressingMode::Extended, instruction_length: 3, cycles: 9 }),
        0xBE => Some(OpcodeInfo { opcode: Opcode::LoadStackPointer, group: OpcodeGroup::Load, addressing_mode: AddressingMode::Extended, instruction_length: 3, cycles: 5 }),
        0xBF => Some(OpcodeInfo { opcode: Opcode::StoreStackPointer, group: OpcodeGroup::Store, addressing_mode: AddressingMode::Extended, instruction_length: 3, cycles: 6 }),
        0xC0 => Some(OpcodeInfo { opcode: Opcode::Subtract, group: OpcodeGroup::Substract, addressing_mode: AddressingMode::Immediate, instruction_length: 2, cycles: 2 }),
        0xC1 => Some(OpcodeInfo { opcode: Opcode::Compare, group: OpcodeGroup::Compare, addressing_mode: AddressingMode::Immediate, instruction_length: 2, cycles: 2 }),
        0xC2 => Some(OpcodeInfo { opcode: Opcode::SubtractWithCarry, group: OpcodeGroup::Substract, addressing_mode: AddressingMode::Immediate, instruction_length: 2, cycles: 2 }),
        0xC4 => Some(OpcodeInfo { opcode: Opcode::And, group: OpcodeGroup::Logical, addressing_mode: AddressingMode::Immediate, instruction_length: 2, cycles: 2 }),
        0xC5 => Some(OpcodeInfo { opcode: Opcode::BitTest, group: OpcodeGroup::Logical, addressing_mode: AddressingMode::Immediate, instruction_length: 2, cycles: 2 }),
        0xC6 => Some(OpcodeInfo { opcode: Opcode::LoadAccumulator, group: OpcodeGroup::Load, addressing_mode: AddressingMode::Immediate, instruction_length: 2, cycles: 2 }),
        0xC8 => Some(OpcodeInfo { opcode: Opcode::Xor, group: OpcodeGroup::Logical, addressing_mode: AddressingMode::Immediate, instruction_length: 2, cycles: 2 }),
        0xC9 => Some(OpcodeInfo { opcode: Opcode::AddWithCarry, group: OpcodeGroup::Add, addressing_mode: AddressingMode::Immediate, instruction_length: 2, cycles: 2 }),
        0xCA => Some(OpcodeInfo { opcode: Opcode::Or, group: OpcodeGroup::Logical, addressing_mode: AddressingMode::Immediate, instruction_length: 2, cycles: 2 }),
        0xCB => Some(OpcodeInfo { opcode: Opcode::Add, group: OpcodeGroup::Add, addressing_mode: AddressingMode::Immediate, instruction_length: 2, cycles: 2 }),
        0xCE => Some(OpcodeInfo { opcode: Opcode::LoadIndexRegister, group: OpcodeGroup::Load, addressing_mode: AddressingMode::Immediate, instruction_length: 3, cycles: 3 }),
        0xD0 => Some(OpcodeInfo { opcode: Opcode::Subtract, group: OpcodeGroup::Substract, addressing_mode: AddressingMode::Direct, instruction_length: 2, cycles: 3 }),
        0xD1 => Some(OpcodeInfo { opcode: Opcode::Compare, group: OpcodeGroup::Compare, addressing_mode: AddressingMode::Direct, instruction_length: 2, cycles: 3 }),
        0xD2 => Some(OpcodeInfo { opcode: Opcode::SubtractWithCarry, group: OpcodeGroup::Substract, addressing_mode: AddressingMode::Direct, instruction_length: 2, cycles: 3 }),
        0xD4 => Some(OpcodeInfo { opcode: Opcode::And, group: OpcodeGroup::Logical, addressing_mode: AddressingMode::Direct, instruction_length: 2, cycles: 3 }),
        0xD5 => Some(OpcodeInfo { opcode: Opcode::BitTest, group: OpcodeGroup::Logical, addressing_mode: AddressingMode::Direct, instruction_length: 2, cycles: 3 }),
        0xD6 => Some(OpcodeInfo { opcode: Opcode::LoadAccumulator, group: OpcodeGroup::Load, addressing_mode: AddressingMode::Direct, instruction_length: 2, cycles: 3 }),
        0xD7 => Some(OpcodeInfo { opcode: Opcode::StoreAccumulator, group: OpcodeGroup::Store, addressing_mode: AddressingMode::Direct, instruction_length: 2, cycles: 4 }),
        0xD8 => Some(OpcodeInfo { opcode: Opcode::Xor, group: OpcodeGroup::Logical, addressing_mode: AddressingMode::Direct, instruction_length: 2, cycles: 3 }),
        0xD9 => Some(OpcodeInfo { opcode: Opcode::AddWithCarry, group: OpcodeGroup::Add, addressing_mode: AddressingMode::Direct, instruction_length: 2, cycles: 3 }),
        0xDA => Some(OpcodeInfo { opcode: Opcode::Or, group: OpcodeGroup::Logical, addressing_mode: AddressingMode::Direct, instruction_length: 2, cycles: 3 }),
        0xDB => Some(OpcodeInfo { opcode: Opcode::Add, group: OpcodeGroup::Add, addressing_mode: AddressingMode::Direct, instruction_length: 2, cycles: 3 }),
        0xDE => Some(OpcodeInfo { opcode: Opcode::LoadIndexRegister, group: OpcodeGroup::Load, addressing_mode: AddressingMode::Direct, instruction_length: 2, cycles: 4 }),
        0xDF => Some(OpcodeInfo { opcode: Opcode::StoreIndexRegister, group: OpcodeGroup::Store, addressing_mode: AddressingMode::Direct, instruction_length: 2, cycles: 5 }),
        0xE0 => Some(OpcodeInfo { opcode: Opcode::Subtract, group: OpcodeGroup::Substract, addressing_mode: AddressingMode::Indexed, instruction_length: 2, cycles: 5 }),
        0xE1 => Some(OpcodeInfo { opcode: Opcode::Compare, group: OpcodeGroup::Compare, addressing_mode: AddressingMode::Indexed, instruction_length: 2, cycles: 5 }),
        0xE2 => Some(OpcodeInfo { opcode: Opcode::SubtractWithCarry, group: OpcodeGroup::Substract, addressing_mode: AddressingMode::Indexed, instruction_length: 2, cycles: 5 }),
        0xE4 => Some(OpcodeInfo { opcode: Opcode::And, group: OpcodeGroup::Logical, addressing_mode: AddressingMode::Indexed, instruction_length: 2, cycles: 5 }),
        0xE5 => Some(OpcodeInfo { opcode: Opcode::BitTest, group: OpcodeGroup::Logical, addressing_mode: AddressingMode::Indexed, instruction_length: 2, cycles: 5 }),
        0xE6 => Some(OpcodeInfo { opcode: Opcode::LoadAccumulator, group: OpcodeGroup::Load, addressing_mode: AddressingMode::Indexed, instruction_length: 2, cycles: 5 }),
        0xE7 => Some(OpcodeInfo { opcode: Opcode::StoreAccumulator, group: OpcodeGroup::Store, addressing_mode: AddressingMode::Indexed, instruction_length: 2, cycles: 6 }),
        0xE8 => Some(OpcodeInfo { opcode: Opcode::Xor, group: OpcodeGroup::Logical, addressing_mode: AddressingMode::Indexed, instruction_length: 2, cycles: 5 }),
        0xE9 => Some(OpcodeInfo { opcode: Opcode::AddWithCarry, group: OpcodeGroup::Add, addressing_mode: AddressingMode::Indexed, instruction_length: 2, cycles: 5 }),
        0xEA => Some(OpcodeInfo { opcode: Opcode::Or, group: OpcodeGroup::Logical, addressing_mode: AddressingMode::Indexed, instruction_length: 2, cycles: 5 }),
        0xEB => Some(OpcodeInfo { opcode: Opcode::Add, group: OpcodeGroup::Add, addressing_mode: AddressingMode::Indexed, instruction_length: 2, cycles: 5 }),
        0xEE => Some(OpcodeInfo { opcode: Opcode::LoadIndexRegister, group: OpcodeGroup::Load, addressing_mode: AddressingMode::Indexed, instruction_length: 2, cycles: 6 }),
        0xEF => Some(OpcodeInfo { opcode: Opcode::StoreIndexRegister, group: OpcodeGroup::Store, addressing_mode: AddressingMode::Indexed, instruction_length: 2, cycles: 7 }),
        0xF0 => Some(OpcodeInfo { opcode: Opcode::Subtract, group: OpcodeGroup::Substract, addressing_mode: AddressingMode::Extended, instruction_length: 3, cycles: 4 }),
        0xF1 => Some(OpcodeInfo { opcode: Opcode::Compare, group: OpcodeGroup::Compare, addressing_mode: AddressingMode::Extended, instruction_length: 3, cycles: 4 }),
        0xF2 => Some(OpcodeInfo { opcode: Opcode::SubtractWithCarry, group: OpcodeGroup::Substract, addressing_mode: AddressingMode::Extended, instruction_length: 3, cycles: 4 }),
        0xF4 => Some(OpcodeInfo { opcode: Opcode::And, group: OpcodeGroup::Logical, addressing_mode: AddressingMode::Extended, instruction_length: 3, cycles: 4 }),
        0xF5 => Some(OpcodeInfo { opcode: Opcode::BitTest, group: OpcodeGroup::Logical, addressing_mode: AddressingMode::Extended, instruction_length: 3, cycles: 4 }),
        0xF6 => Some(OpcodeInfo { opcode: Opcode::LoadAccumulator, group: OpcodeGroup::Load, addressing_mode: AddressingMode::Extended, instruction_length: 3, cycles: 4 }),
        0xF7 => Some(OpcodeInfo { opcode: Opcode::StoreAccumulator, group: OpcodeGroup::Store, addressing_mode: AddressingMode::Extended, instruction_length: 3, cycles: 5 }),
        0xF8 => Some(OpcodeInfo { opcode: Opcode::Xor, group: OpcodeGroup::Logical, addressing_mode: AddressingMode::Extended, instruction_length: 3, cycles: 4 }),
        0xF9 => Some(OpcodeInfo { opcode: Opcode::AddWithCarry, group: OpcodeGroup::Add, addressing_mode: AddressingMode::Extended, instruction_length: 3, cycles: 4 }),
        0xFA => Some(OpcodeInfo { opcode: Opcode::Or, group: OpcodeGroup::Logical, addressing_mode: AddressingMode::Extended, instruction_length: 3, cycles: 4 }),
        0xFB => Some(OpcodeInfo { opcode: Opcode::Add, group: OpcodeGroup::Add, addressing_mode: AddressingMode::Extended, instruction_length: 3, cycles: 4 }),
        0xFE => Some(OpcodeInfo { opcode: Opcode::LoadIndexRegister, group: OpcodeGroup::Load, addressing_mode: AddressingMode::Extended, instruction_length: 3, cycles: 5 }),
        0xFF => Some(OpcodeInfo { opcode: Opcode::StoreIndexRegister, group: OpcodeGroup::Store, addressing_mode: AddressingMode::Extended, instruction_length: 3, cycles: 6 }),
        _ => None,
    }
}

/// Which opcode bytes have no table entry, and why decoding fails on a given
/// window: empty input and windows shorter than the declared instruction
/// length are too short, and an unmapped first byte is an invalid opcode.
pub open spec fn decode_err(data: Seq<u8>) -> Option<DisassemblyError> {
    if data.len() == 0 {
        Some(DisassemblyError::MachineCodeTooShort)
    } else {
        match opcode_table(data[0]) {
            None => Some(DisassemblyError::InvalidOpcodeByte),
            Some(oi) => if oi.instruction_length > data.len() {
                Some(DisassemblyError::MachineCodeTooShort)
            } else {
                None
            },
        }
    }
}

/// The byte at position `i`, or zero past the end of the window.  Operand
/// synthesis never reads past the instruction's declared length, so the
/// padding value is immaterial.
pub open spec fn byte_or_zero(data: Seq<u8>, i: int) -> u8 {
    if 0 <= i < data.len() {
        data[i]
    } else {
        0
    }
}

/// The accumulator an opcode byte implies.  Bytes `0xC0..=0xFF`, the B rows
/// of the read-modify-write column (`0x50..=0x5F`), and the B forms of push
/// and pull name accumulator B; every other accumulator-carrying byte names A.
pub open spec fn acc_operand_of_byte(b0: u8) -> OperandType {
    if 0xC0 <= b0 {
        OperandType::AccumulatorB
    } else if 0x50 <= b0 && b0 < 0x60 {
        OperandType::AccumulatorB
    } else if b0 == 0x33 || b0 == 0x37 {
        OperandType::AccumulatorB
    } else {
        OperandType::AccumulatorA
    }
}

/// Structural facts about every table entry: lengths are 1 to 3 bytes and
/// are determined by the addressing mode (immediate mode is two bytes, or
/// three for the 16-bit loads and the index-register compare).
pub open spec fn mode_len_wf(oi: OpcodeInfo) -> bool {
    &&& 1 <= oi.instruction_length <= 3
    &&& (oi.addressing_mode == AddressingMode::Inherent
        || oi.addressing_mode == AddressingMode::Accumulator) ==> oi.instruction_length == 1
    &&& (oi.addressing_mode == AddressingMode::Relative
        || oi.addressing_mode == AddressingMode::Direct
        || oi.addressing_mode == AddressingMode::Indexed) ==> oi.instruction_length == 2
    &&& oi.addressing_mode == AddressingMode::Extended ==> oi.instruction_length == 3
    &&& oi.addressing_mode == AddressingMode::Immediate ==> (oi.opcode == Opcode::CompareIndexRegister
        || oi.opcode == Opcode::LoadStackPointer || oi.opcode == Opcode::LoadIndexRegister)
        == (oi.instruction_length == 3)
    &&& oi.addressing_mode == AddressingMode::Immediate ==> oi.instruction_length == 2
        || oi.instruction_length == 3
}

/// The operand list synthesized for the instruction whose first byte is `b0`
/// and whose operand bytes, where the length calls for them, are `b1` and
/// `b2`.  The first element, when register-typed, names the destination;
/// immediate elements carry the raw operand bytes, high byte first for
/// 16-bit values.
pub open spec fn operands_spec(b0: u8, b1: u8, b2: u8) -> Seq<OperandType> {
    match opcode_table(b0) {
        None => seq![],
        Some(oi) => match oi.opcode {
            Opcode::Nop | Opcode::IncrementStackPointer | Opcode::DecrementStackPointer
                | Opcode::Return => seq![],
            Opcode::TransferAToConditionCodes => seq![
                OperandType::AccumulatorA,
                OperandType::ConditionCodeRegister,
            ],
            Opcode::TransferConditionCodesToA => seq![
                OperandType::ConditionCodeRegister,
                OperandType::AccumulatorA,
            ],
            Opcode::TransferAToB => seq![OperandType::AccumulatorA, OperandType::AccumulatorB],
            Opcode::TransferBToA => seq![OperandType::AccumulatorB, OperandType::AccumulatorA],
            Opcode::SubtractBFromA | Opcode::CompareAAndB | Opcode::AddBToA => seq![
                OperandType::AccumulatorA,
                OperandType::AccumulatorB,
            ],
            Opcode::DecimalAdjustA => seq![OperandType::AccumulatorA],
            Opcode::IncrementIndexRegister | Opcode::DecrementIndexRegister
                | Opcode::TransferStackPointerToIndexRegister
                | Opcode::TransferIndexRegisterToStackPointer => seq![OperandType::IndexRegister],
            Opcode::ClearOverflowFlag | Opcode::SetOverflowFlag | Opcode::ClearCarryFlag
                | Opcode::SetCarryFlag | Opcode::ClearInterruptMask | Opcode::SetInterruptMask => seq![
                OperandType::ConditionCodeRegister,
            ],
            Opcode::Push | Opcode::Pop => seq![acc_operand_of_byte(b0)],
            Opcode::BranchUnconditional | Opcode::BranchIfHigherThan
                | Opcode::BranchIfLowerThanEqual | Opcode::BranchIfCarryClear
                | Opcode::BranchIfCarrySet | Opcode::BranchIfNotEqual | Opcode::BranchIfEqual
                | Opcode::BranchIfOverflowClear | Opcode::BranchIfOverflowSet
                | Opcode::BranchIfPlus | Opcode::BranchIfMinus | Opcode::BranchIfGreaterThanEqual
                | Opcode::BranchIfLessThan | Opcode::BranchIfGreaterThan
                | Opcode::BranchIfLessThanEqual | Opcode::BranchToSubroutine => seq![
                OperandType::Immediate8(b1),
            ],
            Opcode::Subtract | Opcode::Compare | Opcode::SubtractWithCarry | Opcode::And
                | Opcode::BitTest | Opcode::LoadAccumulator | Opcode::StoreAccumulator
                | Opcode::Xor | Opcode::AddWithCarry | Opcode::Or | Opcode::Add => if oi.addressing_mode
                == AddressingMode::Extended {
                seq![
                    acc_operand_of_byte(b0),
                    OperandType::Immediate16(((b1 as u16) << 8) | (b2 as u16)),
                ]
            } else {
                seq![acc_operand_of_byte(b0), OperandType::Immediate8(b1)]
            },
            Opcode::Negate | Opcode::Complement | Opcode::LogicalShiftRight | Opcode::RotateRight
                | Opcode::ArithmeticShiftRight | Opcode::ArithmeticShiftLeft | Opcode::RotateLeft
                | Opcode::Decrement | Opcode::Increment | Opcode::Test | Opcode::Clear => if oi.addressing_mode
                == AddressingMode::Accumulator {
                seq![acc_operand_of_byte(b0)]
            } else if oi.addressing_mode == AddressingMode::Extended {
                seq![OperandType::Immediate16(((b1 as u16) << 8) | (b2 as u16))]
            } else {
                seq![OperandType::Immediate8(b1)]
            },
            Opcode::Jump | Opcode::JumpToSubroutine => if oi.addressing_mode
                == AddressingMode::Extended {
                seq![OperandType::Immediate16(((b1 as u16) << 8) | (b2 as u16))]
            } else {
                seq![OperandType::Immediate8(b1)]
            },
            Opcode::CompareIndexRegister | Opcode::LoadIndexRegister
                | Opcode::StoreIndexRegister => if oi.addressing_mode == AddressingMode::Immediate
                || oi.addressing_mode == AddressingMode::Extended {
                seq![
                    OperandType::IndexRegister,
                    OperandType::Immediate16(((b1 as u16) << 8) | (b2 as u16)),
                ]
            } else {
                seq![OperandType::IndexRegister, OperandType::Immediate8(b1)]
            },
            Opcode::LoadStackPointer | Opcode::StoreStackPointer => if oi.addressing_mode
                == AddressingMode::Immediate || oi.addressing_mode == AddressingMode::Extended {
                seq![OperandType::Immediate16(((b1 as u16) << 8) | (b2 as u16))]
            } else {
                seq![OperandType::Immediate8(b1)]
            },
        },
    }
}

/// The operand-list shape each executor handler relies on, by opcode: how
/// many elements there are, which element names the destination register, and
/// which immediate width goes with which addressing mode.
pub open spec fn operands_wf(oi: OpcodeInfo, ops: Seq<OperandType>) -> bool {
    match oi.opcode {
        Opcode::Subtract | Opcode::Compare | Opcode::SubtractWithCarry | Opcode::And
            | Opcode::BitTest | Opcode::LoadAccumulator | Opcode::StoreAccumulator | Opcode::Xor
            | Opcode::AddWithCarry | Opcode::Or | Opcode::Add => {
            &&& ops.len() == 2
            &&& (ops[0] is AccumulatorA || ops[0] is AccumulatorB)
            &&& (oi.addressing_mode == AddressingMode::Immediate
                || oi.addressing_mode == AddressingMode::Direct
                || oi.addressing_mode == AddressingMode::Indexed
                || oi.addressing_mode == AddressingMode::Extended)
            &&& oi.addressing_mode == AddressingMode::Extended ==> ops[1] is Immediate16
            &&& oi.addressing_mode != AddressingMode::Extended ==> ops[1] is Immediate8
            &&& oi.opcode == Opcode::StoreAccumulator ==> oi.addressing_mode
                != AddressingMode::Immediate
        },
        Opcode::Negate | Opcode::Complement | Opcode::LogicalShiftRight | Opcode::RotateRight
            | Opcode::ArithmeticShiftRight | Opcode::ArithmeticShiftLeft | Opcode::RotateLeft
            | Opcode::Decrement | Opcode::Increment | Opcode::Test | Opcode::Clear => {
            &&& ops.len() == 1
            &&& (oi.addressing_mode == AddressingMode::Accumulator
                || oi.addressing_mode == AddressingMode::Indexed
                || oi.addressing_mode == AddressingMode::Extended)
            &&& oi.addressing_mode == AddressingMode::Accumulator ==> (ops[0] is AccumulatorA
                || ops[0] is AccumulatorB)
            &&& oi.addressing_mode == AddressingMode::Indexed ==> ops[0] is Immediate8
            &&& oi.addressing_mode == AddressingMode::Extended ==> ops[0] is Immediate16
        },
        Opcode::BranchUnconditional | Opcode::BranchIfHigherThan | Opcode::BranchIfLowerThanEqual
            | Opcode::BranchIfCarryClear | Opcode::BranchIfCarrySet | Opcode::BranchIfNotEqual
            | Opcode::BranchIfEqual | Opcode::BranchIfOverflowClear | Opcode::BranchIfOverflowSet
            | Opcode::BranchIfPlus | Opcode::BranchIfMinus | Opcode::BranchIfGreaterThanEqual
            | Opcode::BranchIfLessThan | Opcode::BranchIfGreaterThan
            | Opcode::BranchIfLessThanEqual | Opcode::BranchToSubroutine => {
            &&& ops.len() == 1
            &&& ops[0] is Immediate8
            &&& oi.addressing_mode == AddressingMode::Relative
        },
        Opcode::Push | Opcode::Pop => {
            &&& ops.len() == 1
            &&& (ops[0] is AccumulatorA || ops[0] is AccumulatorB)
        },
        Opcode::Jump | Opcode::JumpToSubroutine => {
            &&& ops.len() == 1
            &&& (oi.addressing_mode == AddressingMode::Indexed || oi.addressing_mode
                == AddressingMode::Extended)
            &&& oi.addressing_mode == AddressingMode::Indexed ==> ops[0] is Immediate8
            &&& oi.addressing_mode == AddressingMode::Extended ==> ops[0] is Immediate16
        },
        Opcode::CompareIndexRegister | Opcode::LoadIndexRegister | Opcode::StoreIndexRegister => {
            &&& ops.len() == 2
            &&& ops[0] == OperandType::IndexRegister
            &&& (oi.addressing_mode == AddressingMode::Immediate
                || oi.addressing_mode == AddressingMode::Direct
                || oi.addressing_mode == AddressingMode::Indexed
                || oi.addressing_mode == AddressingMode::Extended)
            &&& (oi.addressing_mode == AddressingMode::Immediate || oi.addressing_mode
                == AddressingMode::Extended) ==> ops[1] is Immediate16
            &&& (oi.addressing_mode == AddressingMode::Direct || oi.addressing_mode
                == AddressingMode::Indexed) ==> ops[1] is Immediate8
            &&& oi.opcode == Opcode::StoreIndexRegister ==> oi.addressing_mode
                != AddressingMode::Immediate
        },
        Opcode::LoadStackPointer | Opcode::StoreStackPointer => {
            &&& ops.len() == 1
            &&& (oi.addressing_mode == AddressingMode::Immediate
                || oi.addressing_mode == AddressingMode::Direct
                || oi.addressing_mode == AddressingMode::Indexed
                || oi.addressing_mode == AddressingMode::Extended)
            &&& (oi.addressing_mode == AddressingMode::Immediate || oi.addressing_mode
                == AddressingMode::Extended) ==> ops[0] is Immediate16
            &&& (oi.addressing_mode == AddressingMode::Direct || oi.addressing_mode
                == AddressingMode::Indexed) ==> ops[0] is Immediate8
            &&& oi.opcode == Opcode::StoreStackPointer ==> oi.addressing_mode
                != AddressingMode::Immediate
        },
        _ => true,
    }
}

/// Everything `disassemble_instruction` promises of a successful result:
/// the operand list is present, the descriptor respects the mode/length
/// rules of the table, and the operands have the shape the executor expects.
pub open spec fn decoded_wf(info: InstructionInfo) -> bool {
    &&& info.operands is Some
    &&& mode_len_wf(info.opcode_info)
    &&& operands_wf(info.opcode_info, info.operands->0@)
}

/// Match a byte to its disassembled opcode.
///
/// # Errors
/// Returns `InvalidOpcodeByte` when the byte does not correspond to any
/// opcode in the 6800 table.
fn match_byte_to_opcode_info(byte: u8) -> (r: Result<OpcodeInfo, DisassemblyError>)
    ensures
        r is Ok <==> opcode_table(byte) is Some,
        r matches Ok(info) ==> Some(info) == opcode_table(byte) && mode_len_wf(info),
        r is Err ==> r == Err::<OpcodeInfo, DisassemblyError>(DisassemblyError::InvalidOpcodeByte),
{
    let opcode_info: OpcodeInfo = match byte {
        0x01 => OpcodeInfo { opcode: Opcode::Nop, group: OpcodeGroup::NoGroup, addressing_mode: AddressingMode::Inherent, instruction_length: 1, cycles: 2 },
        0x06 => OpcodeInfo { opcode: Opcode::TransferAToConditionCodes, group: OpcodeGroup::TransferRegisters, addressing_mode: AddressingMode::Inherent, instruction_length: 1, cycles: 2 },
        0x07 => OpcodeInfo { opcode: Opcode::TransferConditionCodesToA, group: OpcodeGroup::TransferRegisters, addressing_mode: AddressingMode::Inherent, instruction_length: 1, cycles: 2 },
        0x08 => OpcodeInfo { opcode: Opcode::IncrementIndexRegister, group: OpcodeGroup::IncrementRegister, addressing_mode: AddressingMode::Inherent, instruction_length: 1, cycles: 4 },
        0x09 => OpcodeInfo { opcode: Opcode::DecrementIndexRegister, group: OpcodeGroup::DecrementRegister, addressing_mode: AddressingMode::Inherent, instruction_length: 1, cycles: 4 },
        0x0A => OpcodeInfo { opcode: Opcode::ClearOverflowFlag, group: OpcodeGroup::ClearFlag, addressing_mode: AddressingMode::Inherent, instruction_length: 1, cycles: 2 },
        0x0B => OpcodeInfo { opcode: Opcode::SetOverflowFlag, group: OpcodeGroup::SetFlag, addressing_mode: AddressingMode::Inherent, instruction_length: 1, cycles: 2 },
        0x0C => OpcodeInfo { opcode: Opcode::ClearCarryFlag, group: OpcodeGroup::ClearFlag, addressing_mode: AddressingMode::Inherent, instruction_length: 1, cycles: 2 },
        0x0D => OpcodeInfo { opcode: Opcode::SetCarryFlag, group: OpcodeGroup::SetFlag, addressing_mode: AddressingMode::Inherent, instruction_length: 1, cycles: 2 },
        0x0E => OpcodeInfo { opcode: Opcode::ClearInterruptMask, group: OpcodeGroup::ClearFlag, addressing_mode: AddressingMode::Inherent, instruction_length: 1, cycles: 2 },
        0x0F => OpcodeInfo { opcode: Opcode::SetInterruptMask, group: OpcodeGroup::SetFlag, addressing_mode: AddressingMode::Inherent, instruction_length: 1, cycles: 2 },
        0x10 => OpcodeInfo { opcode: Opcode::SubtractBFromA, group: OpcodeGroup::Substract, addressing_mode: AddressingMode::Inherent, instruction_length: 1, cycles: 2 },
        0x11 => OpcodeInfo { opcode: Opcode::CompareAAndB, group: OpcodeGroup::Compare, addressing_mode: AddressingMode::Inherent, instruction_length: 1, cycles: 2 },
        0x16 => OpcodeInfo { opcode: Opcode::TransferAToB, group: OpcodeGroup::TransferRegisters, addressing_mode: AddressingMode::Inherent, instruction_length: 1, cycles: 2 },
        0x17 => OpcodeInfo { opcode: Opcode::TransferBToA, group: OpcodeGroup::TransferRegisters, addressing_mode: AddressingMode::Inherent, instruction_length: 1, cycles: 2 },
        0x19 => OpcodeInfo { opcode: Opcode::DecimalAdjustA, group: OpcodeGroup::NoGroup, addressing_mode: AddressingMode::Inherent, instruction_length: 1, cycles: 2 },
        0x1B => OpcodeInfo { opcode: Opcode::AddBToA, group: OpcodeGroup::Add, addressing_mode: AddressingMode::Inherent, instruction_length: 1, cycles: 2 },
        0x20 => OpcodeInfo { opcode: Opcode::BranchUnconditional, group: OpcodeGroup::Branch, addressing_mode: AddressingMode::Relative, instruction_length: 2, cycles: 4 },
        0x22 => OpcodeInfo { opcode: Opcode::BranchIfHigherThan, group: OpcodeGroup::Branch, addressing_mode: AddressingMode::Relative, instruction_length: 2, cycles: 4 },
        0x23 => OpcodeInfo { opcode: Opcode::BranchIfLowerThanEqual, group: OpcodeGroup::Branch, addressing_mode: AddressingMode::Relative, instruction_length: 2, cycles: 4 },
        0x24 => OpcodeInfo { opcode: Opcode::BranchIfCarryClear, group: OpcodeGroup::Branch, addressing_mode: AddressingMode::Relative, instruction_length: 2, cycles: 4 },
        0x25 => OpcodeInfo { opcode: Opcode::BranchIfCarrySet, group: OpcodeGroup::Branch, addressing_mode: AddressingMode::Relative, instruction_length: 2, cycles: 4 },
        0x26 => OpcodeInfo { opcode: Opcode::BranchIfNotEqual, group: OpcodeGroup::Branch, addressing_mode: AddressingMode::Relative, instruction_length: 2, cycles: 4 },
        0x27 => OpcodeInfo { opcode: Opcode::BranchIfEqual, group: OpcodeGroup::Branch, addressing_mode: AddressingMode::Relative, instruction_length: 2, cycles: 4 },
        0x28 => OpcodeInfo { opcode: Opcode::BranchIfOverflowClear, group: OpcodeGroup::Branch, addressing_mode: AddressingMode::Relative, instruction_length: 2, cycles: 4 },
        0x29 => OpcodeInfo { opcode: Opcode::BranchIfOverflowSet, group: OpcodeGroup::Branch, addressing_mode: AddressingMode::Relative, instruction_length: 2, cycles: 4 },
        0x2A => OpcodeInfo { opcode: Opcode::BranchIfPlus, group: OpcodeGroup::Branch, addressing_mode: AddressingMode::Relative, instruction_length: 2, cycles: 4 },
        0x2B => OpcodeInfo { opcode: Opcode::BranchIfMinus, group: OpcodeGroup::Branch, addressing_mode: AddressingMode::Relative, instruction_length: 2, cycles: 4 },
        0x2C => OpcodeInfo { opcode: Opcode::BranchIfGreaterThanEqual, group: OpcodeGroup::Branch, addressing_mode: AddressingMode::Relative, instruction_length: 2, cycles: 4 },
        0x2D => OpcodeInfo { opcode: Opcode::BranchIfLessThan, group: OpcodeGroup::Branch, addressing_mode: AddressingMode::Relative, instruction_length: 2, cycles: 4 },
        0x2E => OpcodeInfo { opcode: Opcode::BranchIfGreaterThan, group: OpcodeGroup::Branch, addressing_mode: AddressingMode::Relative, instruction_length: 2, cycles: 4 },
        0x2F => OpcodeInfo { opcode: Opcode::BranchIfLessThanEqual, group: OpcodeGroup::Branch, addressing_mode: AddressingMode::Relative, instruction_length: 2, cycles: 4 },
        0x30 => OpcodeInfo { opcode: Opcode::TransferStackPointerToIndexRegister, group: OpcodeGroup::TransferRegisters, addressing_mode: AddressingMode::Inherent, instruction_length: 1, cycles: 4 },
        0x31 => OpcodeInfo { opcode: Opcode::IncrementStackPointer, group: OpcodeGroup::IncrementRegister, addressing_mode: AddressingMode::Inherent, instruction_length: 1, cycles: 4 },
        0x32 => OpcodeInfo { opcode: Opcode::Pop, group: OpcodeGroup::Stack, addressing_mode: AddressingMode::Inherent, instruction_length: 1, cycles: 4 },
        0x33 => OpcodeInfo { opcode: Opcode::Pop, group: OpcodeGroup::Stack, addressing_mode: AddressingMode::Inherent, instruction_length: 1, cycles: 4 },
        0x34 => OpcodeInfo { opcode: Opcode::DecrementStackPointer, group: OpcodeGroup::DecrementRegister, addressing_mode: AddressingMode::Inherent, instruction_length: 1, cycles: 4 },
        0x35 => OpcodeInfo { opcode: Opcode::TransferIndexRegisterToStackPointer, group: OpcodeGroup::TransferRegisters, addressing_mode: AddressingMode::Inherent, instruction_length: 1, cycles: 4 },
        0x36 => OpcodeInfo { opcode: Opcode::Push, group: OpcodeGroup::Stack, addressing_mode: AddressingMode::Inherent, instruction_length: 1, cycles: 4 },
        0x37 => OpcodeInfo { opcode: Opcode::Push, group: OpcodeGroup::Stack, addressing_mode: AddressingMode::Inherent, instruction_length: 1, cycles: 4 },
        0x39 => OpcodeInfo { opcode: Opcode::Return, group: OpcodeGroup::NoGroup, addressing_mode: AddressingMode::Inherent, instruction_length: 1, cycles: 5 },
        0x40 => OpcodeInfo { opcode: Opcode::Negate, group: OpcodeGroup::NoGroup, addressing_mode: AddressingMode::Accumulator, instruction_length: 1, cycles: 2 },
        0x43 => OpcodeInfo { opcode: Opcode::Complement, group: OpcodeGroup::Logical, addressing_mode: AddressingMode::Accumulator, instruction_length: 1, cycles: 2 },
        0x44 => OpcodeInfo { opcode: Opcode::LogicalShiftRight, group: OpcodeGroup::ShiftRotate, addressing_mode: AddressingMode::Accumulator, instruction_length: 1, cycles: 2 },
        0x46 => OpcodeInfo { opcode: Opcode::RotateRight, group: OpcodeGroup::ShiftRotate, addressing_mode: AddressingMode::Accumulator, instruction_length: 1, cycles: 2 },
        0x47 => OpcodeInfo { opcode: Opcode::ArithmeticShiftRight, group: OpcodeGroup::ShiftRotate, addressing_mode: AddressingMode::Accumulator, instruction_length: 1, cycles: 2 },
        0x48 => OpcodeInfo { opcode: Opcode::ArithmeticShiftLeft, group: OpcodeGroup::ShiftRotate, addressing_mode: AddressingMode::Accumulator, instruction_length: 1, cycles: 2 },
        0x49 => OpcodeInfo { opcode: Opcode::RotateLeft, group: OpcodeGroup::ShiftRotate, addressing_mode: AddressingMode::Accumulator, instruction_length: 1, cycles: 2 },
        0x4A => OpcodeInfo { opcode: Opcode::Decrement, group: OpcodeGroup::DecrementRegister, addressing_mode: AddressingMode::Accumulator, instruction_length: 1, cycles: 2 },
        0x4C => OpcodeInfo { opcode: Opcode::Increment, group: OpcodeGroup::IncrementRegister, addressing_mode: AddressingMode::Accumulator, instruction_length: 1, cycles: 2 },
        0x4D => OpcodeInfo { opcode: Opcode::Test, group: OpcodeGroup::Logical, addressing_mode: AddressingMode::Accumulator, instruction_length: 1, cycles: 2 },
        0x4F => OpcodeInfo { opcode: Opcode::Clear, group: OpcodeGroup::NoGroup, addressing_mode: AddressingMode::Accumulator, instruction_length: 1, cycles: 2 },
        0x50 => OpcodeInfo { opcode: Opcode::Negate, group: OpcodeGroup::NoGroup, addressing_mode: AddressingMode::Accumulator, instruction_length: 1, cycles: 2 },
        0x53 => OpcodeInfo { opcode: Opcode::Complement, group: OpcodeGroup::Logical, addressing_mode: AddressingMode::Accumulator, instruction_length: 1, cycles: 2 },
        0x54 => OpcodeInfo { opcode: Opcode::LogicalShiftRight, group: OpcodeGroup::ShiftRotate, addressing_mode: AddressingMode::Accumulator, instruction_length: 1, cycles: 2 },
        0x56 => OpcodeInfo { opcode: Opcode::RotateRight, group: OpcodeGroup::ShiftRotate, addressing_mode: AddressingMode::Accumulator, instruction_length: 1, cycles: 2 },
        0x57 => OpcodeInfo { opcode: Opcode::ArithmeticShiftRight, group: OpcodeGroup::ShiftRotate, addressing_mode: AddressingMode::Accumulator, instruction_length: 1, cycles: 2 },
        0x58 => OpcodeInfo { opcode: Opcode::ArithmeticShiftLeft, group: OpcodeGroup::ShiftRotate, addressing_mode: AddressingMode::Accumulator, instruction_length: 1, cycles: 2 },
        0x59 => OpcodeInfo { opcode: Opcode::RotateLeft, group: OpcodeGroup::ShiftRotate, addressing_mode: AddressingMode::Accumulator, instruction_length: 1, cycles: 2 },
        0x5A => OpcodeInfo { opcode: Opcode::Decrement, group: OpcodeGroup::DecrementRegister, addressing_mode: AddressingMode::Accumulator, instruction_length: 1, cycles: 2 },
        0x5C => OpcodeInfo { opcode: Opcode::Increment, group: OpcodeGroup::IncrementRegister, addressing_mode: AddressingMode::Accumulator, instruction_length: 1, cycles: 2 },
        0x5D => OpcodeInfo { opcode: Opcode::Test, group: OpcodeGroup::Logical, addressing_mode: AddressingMode::Accumulator, instruction_length: 1, cycles: 2 },
        0x5F => OpcodeInfo { opcode: Opcode::Clear, group: OpcodeGroup::NoGroup, addressing_mode: AddressingMode::Accumulator, instruction_length: 1, cycles: 2 },
        0x60 => OpcodeInfo { opcode: Opcode::Negate, group: OpcodeGroup::NoGroup, addressing_mode: AddressingMode::Indexed, instruction_length: 2, cycles: 7 },
        0x63 => OpcodeInfo { opcode: Opcode::Complement, group: OpcodeGroup::Logical, addressing_mode: AddressingMode::Indexed, instruction_length: 2, cycles: 7 },
        0x64 => OpcodeInfo { opcode: Opcode::LogicalShiftRight, group: OpcodeGroup::ShiftRotate, addressing_mode: AddressingMode::Indexed, instruction_length: 2, cycles: 7 },
        0x66 => OpcodeInfo { opcode: Opcode::RotateRight, group: OpcodeGroup::ShiftRotate, addressing_mode: AddressingMode::Indexed, instruction_length: 2, cycles: 7 },
        0x67 => OpcodeInfo { opcode: Opcode::ArithmeticShiftRight, group: OpcodeGroup::ShiftRotate, addressing_mode: AddressingMode::Indexed, instruction_length: 2, cycles: 7 },
        0x68 => OpcodeInfo { opcode: Opcode::ArithmeticShiftLeft, group: OpcodeGroup::ShiftRotate, addressing_mode: AddressingMode::Indexed, instruction_length: 2, cycles: 7 },
        0x69 => OpcodeInfo { opcode: Opcode::RotateLeft, group: OpcodeGroup::ShiftRotate, addressing_mode: AddressingMode::Indexed, instruction_length: 2, cycles: 7 },
        0x6A => OpcodeInfo { opcode: Opcode::Decrement, group: OpcodeGroup::DecrementRegister, addressing_mode: AddressingMode::Indexed, instruction_length: 2, cycles: 7 },
        0x6C => OpcodeInfo { opcode: Opcode::Increment, group: OpcodeGroup::IncrementRegister, addressing_mode: AddressingMode::Indexed, instruction_length: 2, cycles: 7 },
        0x6D => OpcodeInfo { opcode: Opcode::Test, group: OpcodeGroup::Logical, addressing_mode: AddressingMode::Indexed, instruction_length: 2, cycles: 7 },
        0x6E => OpcodeInfo { opcode: Opcode::Jump, group: OpcodeGroup::Jump, addressing_mode: AddressingMode::Indexed, instruction_length: 2, cycles: 4 },
        0x6F => OpcodeInfo { opcode: Opcode::Clear, group: OpcodeGroup::NoGroup, addressing_mode: AddressingMode::Indexed, instruction_length: 2, cycles: 7 },
        0x70 => OpcodeInfo { opcode: Opcode::Negate, group: OpcodeGroup::NoGroup, addressing_mode: AddressingMode::Extended, instruction_length: 3, cycles: 6 },
        0x73 => OpcodeInfo { opcode: Opcode::Complement, group: OpcodeGroup::Logical, addressing_mode: AddressingMode::Extended, instruction_length: 3, cycles: 6 },
        0x74 => OpcodeInfo { opcode: Opcode::LogicalShiftRight, group: OpcodeGroup::ShiftRotate, addressing_mode: AddressingMode::Extended, instruction_length: 3, cycles: 6 },
        0x76 => OpcodeInfo { opcode: Opcode::RotateRight, group: OpcodeGroup::ShiftRotate, addressing_mode: AddressingMode::Extended, instruction_length: 3, cycles: 6 },
        0x77 => OpcodeInfo { opcode: Opcode::ArithmeticShiftRight, group: OpcodeGroup::ShiftRotate, addressing_mode: AddressingMode::Extended, instruction_length: 3, cycles: 6 },
        0x78 => OpcodeInfo { opcode: Opcode::ArithmeticShiftLeft, group: OpcodeGroup::ShiftRotate, addressing_mode: AddressingMode::Extended, instruction_length: 3, cycles: 6 },
        0x79 => OpcodeInfo { opcode: Opcode::RotateLeft, group: OpcodeGroup::ShiftRotate, addressing_mode: AddressingMode::Extended, instruction_length: 3, cycles: 6 },
        0x7A => OpcodeInfo { opcode: Opcode::Decrement, group: OpcodeGroup::DecrementRegister, addressing_mode: AddressingMode::Extended, instruction_length: 3, cycles: 6 },
        0x7C => OpcodeInfo { opcode: Opcode::Increment, group: OpcodeGroup::IncrementRegister, addressing_mode: AddressingMode::Extended, instruction_length: 3, cycles: 6 },
        0x7D => OpcodeInfo { opcode: Opcode::Test, group: OpcodeGroup::Logical, addressing_mode: AddressingMode::Extended, instruction_length: 3, cycles: 6 },
        0x7E => OpcodeInfo { opcode: Opcode::Jump, group: OpcodeGroup::Jump, addressing_mode: AddressingMode::Extended, instruction_length: 3, cycles: 3 },
        0x7F => OpcodeInfo { opcode: Opcode::Clear, group: OpcodeGroup::NoGroup, addressing_mode: AddressingMode::Extended, instruction_length: 3, cycles: 6 },
        0x80 => OpcodeInfo { opcode: Opcode::Subtract, group: OpcodeGroup::Substract, addressing_mode: AddressingMode::Immediate, instruction_length: 2, cycles: 2 },
        0x81 => OpcodeInfo { opcode: Opcode::Compare, group: OpcodeGroup::Compare, addressing_mode: AddressingMode::Immediate, instruction_length: 2, cycles: 2 },
        0x82 => OpcodeInfo { opcode: Opcode::SubtractWithCarry, group: OpcodeGroup::Substract, addressing_mode: AddressingMode::Immediate, instruction_length: 2, cycles: 2 },
        0x84 => OpcodeInfo { opcode: Opcode::And, group: OpcodeGroup::Logical, addressing_mode: AddressingMode::Immediate, instruction_length: 2, cycles: 2 },
        0x85 => OpcodeInfo { opcode: Opcode::BitTest, group: OpcodeGroup::Logical, addressing_mode: AddressingMode::Immediate, instruction_length: 2, cycles: 2 },
        0x86 => OpcodeInfo { opcode: Opcode::LoadAccumulator, group: OpcodeGroup::Load, addressing_mode: AddressingMode::Immediate, instruction_length: 2, cycles: 2 },
        0x88 => OpcodeInfo { opcode: Opcode::Xor, group: OpcodeGroup::Logical, addressing_mode: AddressingMode::Immediate, instruction_length: 2, cycles: 2 },
        0x89 => OpcodeInfo { opcode: Opcode::AddWithCarry, group: OpcodeGroup::Add, addressing_mode: AddressingMode::Immediate, instruction_length: 2, cycles: 2 },
        0x8A => OpcodeInfo { opcode: Opcode::Or, group: OpcodeGroup::Logical, addressing_mode: AddressingMode::Immediate, instruction_length: 2, cycles: 2 },
        0x8B => OpcodeInfo { opcode: Opcode::Add, group: OpcodeGroup::Add, addressing_mode: AddressingMode::Immediate, instruction_length: 2, cycles: 2 },
        0x8C => OpcodeInfo { opcode: Opcode::CompareIndexRegister, group: OpcodeGroup::Compare, addressing_mode: AddressingMode::Immediate, instruction_length: 3, cycles: 3 },
        0x8D => OpcodeInfo { opcode: Opcode::BranchToSubroutine, group: OpcodeGroup::Branch, addressing_mode: AddressingMode::Relative, instruction_length: 2, cycles: 8 },
        0x8E => OpcodeInfo { opcode: Opcode::LoadStackPointer, group: OpcodeGroup::Load, addressing_mode: AddressingMode::Immediate, instruction_length: 3, cycles: 3 },
        0x90 => OpcodeInfo { opcode: Opcode::Subtract, group: OpcodeGroup::Substract, addressing_mode: AddressingMode::Direct, instruction_length: 2, cycles: 3 },
        0x91 => OpcodeInfo { opcode: Opcode::Compare, group: OpcodeGroup::Compare, addressing_mode: AddressingMode::Direct, instruction_length: 2, cycles: 3 },
        0x92 => OpcodeInfo { opcode: Opcode::SubtractWithCarry, group: OpcodeGroup::Substract, addressing_mode: AddressingMode::Direct, instruction_length: 2, cycles: 3 },
        0x94 => OpcodeInfo { opcode: Opcode::And, group: OpcodeGroup::Logical, addressing_mode: AddressingMode::Direct, instruction_length: 2, cycles: 3 },
        0x95 => OpcodeInfo { opcode: Opcode::BitTest, group: OpcodeGroup::Logical, addressing_mode: AddressingMode::Direct, instruction_length: 2, cycles: 3 },
        0x96 => OpcodeInfo { opcode: Opcode::LoadAccumulator, group: OpcodeGroup::Load, addressing_mode: AddressingMode::Direct, instruction_length: 2, cycles: 3 },
        0x97 => OpcodeInfo { opcode: Opcode::StoreAccumulator, group: OpcodeGroup::Store, addressing_mode: AddressingMode::Direct, instruction_length: 2, cycles: 4 },
        0x98 => OpcodeInfo { opcode: Opcode::Xor, group: OpcodeGroup::Logical, addressing_mode: AddressingMode::Direct, instruction_length: 2, cycles: 3 },
        0x99 => OpcodeInfo { opcode: Opcode::AddWithCarry, group: OpcodeGroup::Add, addressing_mode: AddressingMode::Direct, instruction_length: 2, cycles: 3 },
        0x9A => OpcodeInfo { opcode: Opcode::Or, group: OpcodeGroup::Logical, addressing_mode: AddressingMode::Direct, instruction_length: 2, cycles: 3 },
        0x9B => OpcodeInfo { opcode: Opcode::Add, group: OpcodeGroup::Add, addressing_mode: AddressingMode::Direct, instruction_length: 2, cycles: 3 },
        0x9C => OpcodeInfo { opcode: Opcode::CompareIndexRegister, group: OpcodeGroup::Compare, addressing_mode: AddressingMode::Direct, instruction_length: 2, cycles: 4 },
        0x9E => OpcodeInfo { opcode: Opcode::LoadStackPointer, group: OpcodeGroup::Load, addressing_mode: AddressingMode::Direct, instruction_length: 2, cycles: 4 },
        0x9F => OpcodeInfo { opcode: Opcode::StoreStackPointer, group: OpcodeGroup::Store, addressing_mode: AddressingMode::Direct, instruction_length: 2, cycles: 5 },
        0xA0 => OpcodeInfo { opcode: Opcode::Subtract, group: OpcodeGroup::Substract, addressing_mode: AddressingMode::Indexed, instruction_length: 2, cycles: 5 },
        0xA1 => OpcodeInfo { opcode: Opcode::Compare, group: OpcodeGroup::Compare, addressing_mode: AddressingMode::Indexed, instruction_length: 2, cycles: 5 },
        0xA2 => OpcodeInfo { opcode: Opcode::SubtractWithCarry, group: OpcodeGroup::Substract, addressing_mode: AddressingMode::Indexed, instruction_length: 2, cycles: 5 },
        0xA4 => OpcodeInfo { opcode: Opcode::And, group: OpcodeGroup::Logical, addressing_mode: AddressingMode::Indexed, instruction_length: 2, cycles: 5 },
        0xA5 => OpcodeInfo { opcode: Opcode::BitTest, group: OpcodeGroup::Logical, addressing_mode: AddressingMode::Indexed, instruction_length: 2, cycles: 5 },
        0xA6 => OpcodeInfo { opcode: Opcode::LoadAccumulator, group: OpcodeGroup::Load, addressing_mode: AddressingMode::Indexed, instruction_length: 2, cycles: 5 },
        0xA7 => OpcodeInfo { opcode: Opcode::StoreAccumulator, group: OpcodeGroup::Store, addressing_mode: AddressingMode::Indexed, instruction_length: 2, cycles: 6 },
        0xA8 => OpcodeInfo { opcode: Opcode::Xor, group: OpcodeGroup::Logical, addressing_mode: AddressingMode::Indexed, instruction_length: 2, cycles: 5 },
        0xA9 => OpcodeInfo { opcode: Opcode::AddWithCarry, group: OpcodeGroup::Add, addressing_mode: AddressingMode::Indexed, instruction_length: 2, cycles: 5 },
        0xAA => OpcodeInfo { opcode: Opcode::Or, group: OpcodeGroup::Logical, addressing_mode: AddressingMode::Indexed, instruction_length: 2, cycles: 5 },
        0xAB => OpcodeInfo { opcode: Opcode::Add, group: OpcodeGroup::Add, addressing_mode: AddressingMode::Indexed, instruction_length: 2, cycles: 5 },
        0xAC => OpcodeInfo { opcode: Opcode::CompareIndexRegister, group: OpcodeGroup::Compare, addressing_mode: AddressingMode::Indexed, instruction_length: 2, cycles: 6 },
        0xAD => OpcodeInfo { opcode: Opcode::JumpToSubroutine, group: OpcodeGroup::Jump, addressing_mode: AddressingMode::Indexed, instruction_length: 2, cycles: 8 },
        0xAE => OpcodeInfo { opcode: Opcode::LoadStackPointer, group: OpcodeGroup::Load, addressing_mode: AddressingMode::Indexed, instruction_length: 2, cycles: 6 },
        0xAF => OpcodeInfo { opcode: Opcode::StoreStackPointer, group: OpcodeGroup::Store, addressing_mode: AddressingMode::Indexed, instruction_length: 2, cycles: 7 },
        0xB0 => OpcodeInfo { opcode: Opcode::Subtract, group: OpcodeGroup::Substract, addressing_mode: AddressingMode::Extended, instruction_length: 3, cycles: 4 },
        0xB1 => OpcodeInfo { opcode: Opcode::Compare, group: OpcodeGroup::Compare, addressing_mode: AddressingMode::Extended, instruction_length: 3, cycles: 4 },
        0xB2 => OpcodeInfo { opcode: Opcode::SubtractWithCarry, group: OpcodeGroup::Substract, addressing_mode: AddressingMode::Extended, instruction_length: 3, cycles: 4 },
        0xB4 => OpcodeInfo { opcode: Opcode::And, group: OpcodeGroup::Logical, addressing_mode: AddressingMode::Extended, instruction_length: 3, cycles: 4 },
        0xB5 => OpcodeInfo { opcode: Opcode::BitTest, group: OpcodeGroup::Logical, addressing_mode: AddressingMode::Extended, instruction_length: 3, cycles: 4 },
        0xB6 => OpcodeInfo { opcode: Opcode::LoadAccumulator, group: OpcodeGroup::Load, addressing_mode: AddressingMode::Extended, instruction_length: 3, cycles: 4 },
        0xB7 => OpcodeInfo { opcode: Opcode::StoreAccumulator, group: OpcodeGroup::Store, addressing_mode: AddressingMode::Extended, instruction_length: 3, cycles: 5 },
        0xB8 => OpcodeInfo { opcode: Opcode::Xor, group: OpcodeGroup::Logical, addressing_mode: AddressingMode::Extended, instruction_length: 3, cycles: 4 },
        0xB9 => OpcodeInfo { opcode: Opcode::AddWithCarry, group: OpcodeGroup::Add, addressing_mode: AddressingMode::Extended, instruction_length: 3, cycles: 4 },
        0xBA => OpcodeInfo { opcode: Opcode::Or, group: OpcodeGroup::Logical, addressing_mode: AddressingMode::Extended, instruction_length: 3, cycles: 4 },
        0xBB => OpcodeInfo { opcode: Opcode::Add, group: OpcodeGroup::Add, addressing_mode: AddressingMode::Extended, instruction_length: 3, cycles: 4 },
        0xBC => OpcodeInfo { opcode: Opcode::CompareIndexRegister, group: OpcodeGroup::Compare, addressing_mode: AddressingMode::Extended, instruction_length: 3, cycles: 5 },
        0xBD => OpcodeInfo { opcode: Opcode::JumpToSubroutine, group: OpcodeGroup::Jump, addressing_mode: AddressingMode::Extended, instruction_length: 3, cycles: 9 },
        0xBE => OpcodeInfo { opcode: Opcode::LoadStackPointer, group: OpcodeGroup::Load, addressing_mode: AddressingMode::Extended, instruction_length: 3, cycles: 5 },
        0xBF => OpcodeInfo { opcode: Opcode::StoreStackPointer, group: OpcodeGroup::Store, addressing_mode: AddressingMode::Extended, instruction_length: 3, cycles: 6 },
        0xC0 => OpcodeInfo { opcode: Opcode::Subtract, group: OpcodeGroup::Substract, addressing_mode: AddressingMode::Immediate, instruction_length: 2, cycles: 2 },
        0xC1 => OpcodeInfo { opcode: Opcode::Compare, group: OpcodeGroup::Compare, addressing_mode: AddressingMode::Immediate, instruction_length: 2, cycles: 2 },
        0xC2 => OpcodeInfo { opcode: Opcode::SubtractWithCarry, group: OpcodeGroup::Substract, addressing_mode: AddressingMode::Immediate, instruction_length: 2, cycles: 2 },
        0xC4 => OpcodeInfo { opcode: Opcode::And, group: OpcodeGroup::Logical, addressing_mode: AddressingMode::Immediate, instruction_length: 2, cycles: 2 },
        0xC5 => OpcodeInfo { opcode: Opcode::BitTest, group: OpcodeGroup::Logical, addressing_mode: AddressingMode::Immediate, instruction_length: 2, cycles: 2 },
        0xC6 => OpcodeInfo { opcode: Opcode::LoadAccumulator, group: OpcodeGroup::Load, addressing_mode: AddressingMode::Immediate, instruction_length: 2, cycles: 2 },
        0xC8 => OpcodeInfo { opcode: Opcode::Xor, group: OpcodeGroup::Logical, addressing_mode: AddressingMode::Immediate, instruction_length: 2, cycles: 2 },
        0xC9 => OpcodeInfo { opcode: Opcode::AddWithCarry, group: OpcodeGroup::Add, addressing_mode: AddressingMode::Immediate, instruction_length: 2, cycles: 2 },
        0xCA => OpcodeInfo { opcode: Opcode::Or, group: OpcodeGroup::Logical, addressing_mode: AddressingMode::Immediate, instruction_length: 2, cycles: 2 },
        0xCB => OpcodeInfo { opcode: Opcode::Add, group: OpcodeGroup::Add, addressing_mode: AddressingMode::Immediate, instruction_length: 2, cycles: 2 },
        0xCE => OpcodeInfo { opcode: Opcode::LoadIndexRegister, group: OpcodeGroup::Load, addressing_mode: AddressingMode::Immediate, instruction_length: 3, cycles: 3 },
        0xD0 => OpcodeInfo { opcode: Opcode::Subtract, group: OpcodeGroup::Substract, addressing_mode: AddressingMode::Direct, instruction_length: 2, cycles: 3 },
        0xD1 => OpcodeInfo { opcode: Opcode::Compare, group: OpcodeGroup::Compare, addressing_mode: AddressingMode::Direct, instruction_length: 2, cycles: 3 },
        0xD2 => OpcodeInfo { opcode: Opcode::SubtractWithCarry, group: OpcodeGroup::Substract, addressing_mode: AddressingMode::Direct, instruction_length: 2, cycles: 3 },
        0xD4 => OpcodeInfo { opcode: Opcode::And, group: OpcodeGroup::Logical, addressing_mode: AddressingMode::Direct, instruction_length: 2, cycles: 3 },
        0xD5 => OpcodeInfo { opcode: Opcode::BitTest, group: OpcodeGroup::Logical, addressing_mode: AddressingMode::Direct, instruction_length: 2, cycles: 3 },
        0xD6 => OpcodeInfo { opcode: Opcode::LoadAccumulator, group: OpcodeGroup::Load, addressing_mode: AddressingMode::Direct, instruction_length: 2, cycles: 3 },
        0xD7 => OpcodeInfo { opcode: Opcode::StoreAccumulator, group: OpcodeGroup::Store, addressing_mode: AddressingMode::Direct, instruction_length: 2, cycles: 4 },
        0xD8 => OpcodeInfo { opcode: Opcode::Xor, group: OpcodeGroup::Logical, addressing_mode: AddressingMode::Direct, instruction_length: 2, cycles: 3 },
        0xD9 => OpcodeInfo { opcode: Opcode::AddWithCarry, group: OpcodeGroup::Add, addressing_mode: AddressingMode::Direct, instruction_length: 2, cycles: 3 },
        0xDA => OpcodeInfo { opcode: Opcode::Or, group: OpcodeGroup::Logical, addressing_mode: AddressingMode::Direct, instruction_length: 2, cycles: 3 },
        0xDB => OpcodeInfo { opcode: Opcode::Add, group: OpcodeGroup::Add, addressing_mode: AddressingMode::Direct, instruction_length: 2, cycles: 3 },
        0xDE => OpcodeInfo { opcode: Opcode::LoadIndexRegister, group: OpcodeGroup::Load, addressing_mode: AddressingMode::Direct, instruction_length: 2, cycles: 4 },
        0xDF => OpcodeInfo { opcode: Opcode::StoreIndexRegister, group: OpcodeGroup::Store, addressing_mode: AddressingMode::Direct, instruction_length: 2, cycles: 5 },
        0xE0 => OpcodeInfo { opcode: Opcode::Subtract, group: OpcodeGroup::Substract, addressing_mode: AddressingMode::Indexed, instruction_length: 2, cycles: 5 },
        0xE1 => OpcodeInfo { opcode: Opcode::Compare, group: OpcodeGroup::Compare, addressing_mode: AddressingMode::Indexed, instruction_length: 2, cycles: 5 },
        0xE2 => OpcodeInfo { opcode: Opcode::SubtractWithCarry, group: OpcodeGroup::Substract, addressing_mode: AddressingMode::Indexed, instruction_length: 2, cycles: 5 },
        0xE4 => OpcodeInfo { opcode: Opcode::And, group: OpcodeGroup::Logical, addressing_mode: AddressingMode::Indexed, instruction_length: 2, cycles: 5 },
        0xE5 => OpcodeInfo { opcode: Opcode::BitTest, group: OpcodeGroup::Logical, addressing_mode: AddressingMode::Indexed, instruction_length: 2, cycles: 5 },
        0xE6 => OpcodeInfo { opcode: Opcode::LoadAccumulator, group: OpcodeGroup::Load, addressing_mode: AddressingMode::Indexed, instruction_length: 2, cycles: 5 },
        0xE7 => OpcodeInfo { opcode: Opcode::StoreAccumulator, group: OpcodeGroup::Store, addressing_mode: AddressingMode::Indexed, instruction_length: 2, cycles: 6 },
        0xE8 => OpcodeInfo { opcode: Opcode::Xor, group: OpcodeGroup::Logical, addressing_mode: AddressingMode::Indexed, instruction_length: 2, cycles: 5 },
        0xE9 => OpcodeInfo { opcode: Opcode::AddWithCarry, group: OpcodeGroup::Add, addressing_mode: AddressingMode::Indexed, instruction_length: 2, cycles: 5 },
        0xEA => OpcodeInfo { opcode: Opcode::Or, group: OpcodeGroup::Logical, addressing_mode: AddressingMode::Indexed, instruction_length: 2, cycles: 5 },
        0xEB => OpcodeInfo { opcode: Opcode::Add, group: OpcodeGroup::Add, addressing_mode: AddressingMode::Indexed, instruction_length: 2, cycles: 5 },
        0xEE => OpcodeInfo { opcode: Opcode::LoadIndexRegister, group: OpcodeGroup::Load, addressing_mode: AddressingMode::Indexed, instruction_length: 2, cycles: 6 },
        0xEF => OpcodeInfo { opcode: Opcode::StoreIndexRegister, group: OpcodeGroup::Store, addressing_mode: AddressingMode::Indexed, instruction_length: 2, cycles: 7 },
        0xF0 => OpcodeInfo { opcode: Opcode::Subtract, group: OpcodeGroup::Substract, addressing_mode: AddressingMode::Extended, instruction_length: 3, cycles: 4 },
        0xF1 => OpcodeInfo { opcode: Opcode::Compare, group: OpcodeGroup::Compare, addressing_mode: AddressingMode::Extended, instruction_length: 3, cycles: 4 },
        0xF2 => OpcodeInfo { opcode: Opcode::SubtractWithCarry, group: OpcodeGroup::Substract, addressing_mode: AddressingMode::Extended, instruction_length: 3, cycles: 4 },
        0xF4 => OpcodeInfo { opcode: Opcode::And, group: OpcodeGroup::Logical, addressing_mode: AddressingMode::Extended, instruction_length: 3, cycles: 4 },
        0xF5 => OpcodeInfo { opcode: Opcode::BitTest, group: OpcodeGroup::Logical, addressing_mode: AddressingMode::Extended, instruction_length: 3, cycles: 4 },
        0xF6 => OpcodeInfo { opcode: Opcode::LoadAccumulator, group: OpcodeGroup::Load, addressing_mode: AddressingMode::Extended, instruction_length: 3, cycles: 4 },
        0xF7 => OpcodeInfo { opcode: Opcode::StoreAccumulator, group: OpcodeGroup::Store, addressing_mode: AddressingMode::Extended, instruction_length: 3, cycles: 5 },
        0xF8 => OpcodeInfo { opcode: Opcode::Xor, group: OpcodeGroup::Logical, addressing_mode: AddressingMode::Extended, instruction_length: 3, cycles: 4 },
        0xF9 => OpcodeInfo { opcode: Opcode::AddWithCarry, group: OpcodeGroup::Add, addressing_mode: AddressingMode::Extended, instruction_length: 3, cycles: 4 },
        0xFA => OpcodeInfo { opcode: Opcode::Or, group: OpcodeGroup::Logical, addressing_mode: AddressingMode::Extended, instruction_length: 3, cycles: 4 },
        0xFB => OpcodeInfo { opcode: Opcode::Add, group: OpcodeGroup::Add, addressing_mode: AddressingMode::Extended, instruction_length: 3, cycles: 4 },
        0xFE => OpcodeInfo { opcode: Opcode::LoadIndexRegister, group: OpcodeGroup::Load, addressing_mode: AddressingMode::Extended, instruction_length: 3, cycles: 5 },
        0xFF => OpcodeInfo { opcode: Opcode::StoreIndexRegister, group: OpcodeGroup::Store, addressing_mode: AddressingMode::Extended, instruction_length: 3, cycles: 6 },
        _ => {
            return Err(DisassemblyError::InvalidOpcodeByte);
        },
    };

    Ok(opcode_info)
}

/// The executable twin of `acc_operand_of_byte`.
fn acc_operand_from_byte(b0: u8) -> (r: OperandType)
    ensures
        r == acc_operand_of_byte(b0),
{
    if 0xC0 <= b0 {
        OperandType::AccumulatorB
    } else if 0x50 <= b0 && b0 < 0x60 {
        OperandType::AccumulatorB
    } else if b0 == 0x33 || b0 == 0x37 {
        OperandType::AccumulatorB
    } else {
        OperandType::AccumulatorA
    }
}

/// Synthesizes the operand list for a decoded opcode from the raw bytes of
/// the instruction window.
fn disassemble_operands(opcode_info: &OpcodeInfo, data: &[u8]) -> (r: Vec<OperandType>)
    requires
        data@.len() > 0,
        Some(*opcode_info) == opcode_table(data@[0]),
        mode_len_wf(*opcode_info),
        opcode_info.instruction_length <= data@.len(),
    ensures
        r@ == operands_spec(data@[0], byte_or_zero(data@, 1), byte_or_zero(data@, 2)),
        operands_wf(*opcode_info, r@),
{
    let ghost b1 = byte_or_zero(data@, 1);
    let ghost b2 = byte_or_zero(data@, 2);
    let operands: Vec<OperandType> = match opcode_info.opcode {
        Opcode::Nop | Opcode::IncrementStackPointer | Opcode::DecrementStackPointer
            | Opcode::Return => vec![],
        Opcode::TransferAToConditionCodes => vec![
            OperandType::AccumulatorA,
            OperandType::ConditionCodeRegister,
        ],
        Opcode::TransferConditionCodesToA => vec![
            OperandType::ConditionCodeRegister,
            OperandType::AccumulatorA,
        ],
        Opcode::TransferAToB => vec![OperandType::AccumulatorA, OperandType::AccumulatorB],
        Opcode::TransferBToA => vec![OperandType::AccumulatorB, OperandType::AccumulatorA],
        Opcode::SubtractBFromA | Opcode::CompareAAndB | Opcode::AddBToA => vec![
            OperandType::AccumulatorA,
            OperandType::AccumulatorB,
        ],
        Opcode::DecimalAdjustA => vec![OperandType::AccumulatorA],
        Opcode::IncrementIndexRegister | Opcode::DecrementIndexRegister
            | Opcode::TransferStackPointerToIndexRegister
            | Opcode::TransferIndexRegisterToStackPointer => vec![OperandType::IndexRegister],
        Opcode::ClearOverflowFlag | Opcode::SetOverflowFlag | Opcode::ClearCarryFlag
            | Opcode::SetCarryFlag | Opcode::ClearInterruptMask | Opcode::SetInterruptMask => vec![
            OperandType::ConditionCodeRegister,
        ],
        Opcode::Push | Opcode::Pop => vec![acc_operand_from_byte(data[0])],
        Opcode::BranchUnconditional | Opcode::BranchIfHigherThan | Opcode::BranchIfLowerThanEqual
            | Opcode::BranchIfCarryClear | Opcode::BranchIfCarrySet | Opcode::BranchIfNotEqual
            | Opcode::BranchIfEqual | Opcode::BranchIfOverflowClear | Opcode::BranchIfOverflowSet
            | Opcode::BranchIfPlus | Opcode::BranchIfMinus | Opcode::BranchIfGreaterThanEqual
            | Opcode::BranchIfLessThan | Opcode::BranchIfGreaterThan
            | Opcode::BranchIfLessThanEqual | Opcode::BranchToSubroutine => vec![
            OperandType::Immediate8(data[1]),
        ],
        Opcode::Subtract | Opcode::Compare | Opcode::SubtractWithCarry | Opcode::And
            | Opcode::BitTest | Opcode::LoadAccumulator | Opcode::StoreAccumulator | Opcode::Xor
            | Opcode::AddWithCarry | Opcode::Or | Opcode::Add => {
            let acc = acc_operand_from_byte(data[0]);
            if opcode_info.addressing_mode == AddressingMode::Extended {
                vec![acc, OperandType::Immediate16(((data[1] as u16) << 8) | (data[2] as u16))]
            } else {
                vec![acc, OperandType::Immediate8(data[1])]
            }
        },
        Opcode::Negate | Opcode::Complement | Opcode::LogicalShiftRight | Opcode::RotateRight
            | Opcode::ArithmeticShiftRight | Opcode::ArithmeticShiftLeft | Opcode::RotateLeft
            | Opcode::Decrement | Opcode::Increment | Opcode::Test | Opcode::Clear => {
            if opcode_info.addressing_mode == AddressingMode::Accumulator {
                vec![acc_operand_from_byte(data[0])]
            } else if opcode_info.addressing_mode == AddressingMode::Extended {
                vec![OperandType::Immediate16(((data[1] as u16) << 8) | (data[2] as u16))]
            } else {
                vec![OperandType::Immediate8(data[1])]
            }
        },
        Opcode::Jump | Opcode::JumpToSubroutine => {
            if opcode_info.addressing_mode == AddressingMode::Extended {
                vec![OperandType::Immediate16(((data[1] as u16) << 8) | (data[2] as u16))]
            } else {
                vec![OperandType::Immediate8(data[1])]
            }
        },
        Opcode::CompareIndexRegister | Opcode::LoadIndexRegister | Opcode::StoreIndexRegister => {
            if opcode_info.addressing_mode == AddressingMode::Immediate
                || opcode_info.addressing_mode == AddressingMode::Extended {
                vec![
                    OperandType::IndexRegister,
                    OperandType::Immediate16(((data[1] as u16) << 8) | (data[2] as u16)),
                ]
            } else {
                vec![OperandType::IndexRegister, OperandType::Immediate8(data[1])]
            }
        },
        Opcode::LoadStackPointer | Opcode::StoreStackPointer => {
            if opcode_info.addressing_mode == AddressingMode::Immediate
                || opcode_info.addressing_mode == AddressingMode::Extended {
                vec![OperandType::Immediate16(((data[1] as u16) << 8) | (data[2] as u16))]
            } else {
                vec![OperandType::Immediate8(data[1])]
            }
        },
    };
    proof {
        assert(operands@ =~= operands_spec(data@[0], b1, b2));
    }

    operands
}

/// Disassemble the next instruction in a byte stream.
///
/// Succeeds exactly when the first byte is a recognized opcode and the
/// window covers the instruction's declared length; the descriptor is then
/// the opcode-table entry for the first byte together with the operand list
/// synthesized from the window bytes.
///
/// # Errors
/// `InvalidOpcodeByte` when the first byte is not in the opcode table, and
/// `MachineCodeTooShort` when the window (including an empty one) is shorter
/// than the instruction's declared length.
pub fn disassemble_instruction(data: &[u8]) -> (r: Result<InstructionInfo, DisassemblyError>)
    ensures
        r is Ok <==> decode_err(data@) is None,
        r matches Err(e) ==> Some(e) == decode_err(data@),
        r matches Ok(info) ==> {
            &&& Some(info.opcode_info) == opcode_table(data@[0])
            &&& info.opcode_info.instruction_length <= data@.len()
            &&& info.operands matches Some(v) && v@ == operands_spec(
                data@[0],
                byte_or_zero(data@, 1),
                byte_or_zero(data@, 2),
            )
            &&& decoded_wf(info)
        },
{
    if data.len() == 0 {
        return Err(DisassemblyError::MachineCodeTooShort);
    }

    let opcode_info = match match_byte_to_opcode_info(data[0]) {
        Ok(info) => info,
        Err(err) => {
            return Err(err);
        },
    };

    // Return an error if data is too short for operands
    if data.len() < opcode_info.instruction_length as usize {
        return Err(DisassemblyError::MachineCodeTooShort);
    }

    let operands = disassemble_operands(&opcode_info, data);

    Ok(InstructionInfo { opcode_info, operands: Some(operands) })
}

} // verus!
