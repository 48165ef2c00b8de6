use momulator::disassembler::{DisassemblyError, InstructionInfo};
use momulator::memory_manager::MemoryManager;
use momulator::processor::{ConditionCodeFlag, EmulationError, Processor, ProcessorState};

fn run_program(program: &[u8], start: u16, steps: usize) -> Processor {
    let mut memory_manager = MemoryManager::new();
    let mut processor = Processor::new();

    memory_manager.write(start, program);
    processor.set_memory_manager(memory_manager);
    processor.set_program_counter(start);

    for _ in 0..steps {
        let result = processor.emulate_instruction();
        assert_eq!(result.is_err(), false);
    }

    processor
}

#[test]
fn processor_test_add_with_carry() {
    let mut memory_manager: MemoryManager = MemoryManager::new();
    let results: [u8; 4] = [0xFF, 0x3, 0xBE, 0xEF];
    let program: [u8; 12] = [
        0x89, results[0], 0x99, 0x9, 0xB9, 0x0, 0xa, 0xA9, 0xb, results[1], results[2], results[3],
    ];
    let mut current_program_counter;
    let mut processor = Processor::new();
    let mut emulation_result: Result<InstructionInfo, EmulationError>;
    let mut i = 0;

    // Load the program and set the memory manager
    memory_manager.write(0, &program);
    processor.set_memory_manager(memory_manager);

    // Set the program counter at the start of the code
    processor.set_program_counter(0);

    while i < 4 {
        current_program_counter = processor.get_state().program_counter;
        processor.set_program_counter(current_program_counter);

        // Emulate the program and get the resulting state of the processor
        emulation_result = processor.emulate_instruction();

        // Assert the instruction was emulated as excepted
        assert_eq!(emulation_result.is_err(), false);

        i += 1;
    }
}

#[test]
fn processor_test_subtract() {
    let mut memory_manager: MemoryManager = MemoryManager::new();
    let program: [u8; 2] = [0x80, 0x15];
    let mut processor = Processor::new();
    let emulation_result: Result<InstructionInfo, EmulationError>;
    let state: ProcessorState;

    // Load the program and set the memory manager
    memory_manager.write(0, &program);
    processor.set_memory_manager(memory_manager);

    // Set the program counter at the start of the code
    processor.set_program_counter(0);

    // Emulate the program and get the resulting state of the processor
    emulation_result = processor.emulate_instruction();
    state = processor.get_state();

    assert_eq!(emulation_result.is_err(), false);

    assert_eq!(state.accumulator_a as i8, -0x15);
}

#[test]
fn test_subtract_immediate_flags() {
    // With A = 0x00, `SUB A #$15` leaves the two's complement of 0x15 and
    // sets negative and borrow.
    let processor = run_program(&[0x80, 0x15], 0, 1);
    let state = processor.get_state();

    assert_eq!(state.accumulator_a, 0xEB);
    assert_eq!(state.get_condition_code_flag(ConditionCodeFlag::Negative), true);
    assert_eq!(state.get_condition_code_flag(ConditionCodeFlag::Zero), false);
    assert_eq!(state.get_condition_code_flag(ConditionCodeFlag::Carry), true);
    assert_eq!(state.get_condition_code_flag(ConditionCodeFlag::Overflow), false);
    assert_eq!(state.program_counter, 0x0002);
}

#[test]
fn test_add_signed_overflow_flags() {
    // `LDA A #$7F` then `ADD A #$01`: 0x7F + 1 overflows into the sign bit
    // and carries out of bit 3.
    let processor = run_program(&[0x86, 0x7F, 0x8B, 0x01], 0, 2);
    let state = processor.get_state();

    assert_eq!(state.accumulator_a, 0x80);
    assert_eq!(state.get_condition_code_flag(ConditionCodeFlag::Negative), true);
    assert_eq!(state.get_condition_code_flag(ConditionCodeFlag::Zero), false);
    assert_eq!(state.get_condition_code_flag(ConditionCodeFlag::Overflow), true);
    assert_eq!(state.get_condition_code_flag(ConditionCodeFlag::Carry), false);
    assert_eq!(state.get_condition_code_flag(ConditionCodeFlag::HalfCarry), true);
}

#[test]
fn test_unconditional_branch_self_loop() {
    // `BRA -2` at 0x0100 targets its own first byte: 0x0100 + 2 + (-2).
    let processor = run_program(&[0x20, 0xFE], 0x0100, 1);

    assert_eq!(processor.get_state().program_counter, 0x0100);
}

#[test]
fn test_branch_taken_and_not_taken() {
    // `SUB A #$00` leaves zero set, so `BEQ +4` is taken: 2 + 2 + 4.
    let taken = run_program(&[0x80, 0x00, 0x27, 0x04], 0, 2);
    assert_eq!(taken.get_state().program_counter, 0x0008);

    // `SUB A #$15` clears zero, so `BEQ +4` falls through to 2 + 2.
    let fall_through = run_program(&[0x80, 0x15, 0x27, 0x04], 0, 2);
    assert_eq!(fall_through.get_state().program_counter, 0x0004);
}

#[test]
fn test_branch_to_subroutine_and_return() {
    // `LDS #$00FF` lives apart from the subroutine test bed so that the
    // branch itself starts at address zero: `BSR +2`, whose target is
    // 0 + 2 + 2 = 4, where RTS sits.
    let mut memory_manager = MemoryManager::new();
    let mut processor = Processor::new();

    memory_manager.write(0x0200, &[0x8E, 0x00, 0xFF]);
    memory_manager.write(0x0000, &[0x8D, 0x02, 0x00, 0x00, 0x39]);
    processor.set_memory_manager(memory_manager);

    processor.set_program_counter(0x0200);
    assert_eq!(processor.emulate_instruction().is_err(), false);
    assert_eq!(processor.get_state().stack_pointer, 0x00FF);

    processor.set_program_counter(0x0000);
    assert_eq!(processor.emulate_instruction().is_err(), false);
    assert_eq!(processor.get_state().program_counter, 0x0004);
    assert_eq!(processor.get_state().stack_pointer, 0x00FD);

    assert_eq!(processor.emulate_instruction().is_err(), false);
    let state = processor.get_state();
    assert_eq!(state.program_counter, 0x0002);
    assert_eq!(state.stack_pointer, 0x00FF);

    // The saved return address sits on the stack, high byte first.
    let saved = processor.memory().unwrap().read(0x00FE, 2);
    assert_eq!(saved, vec![0x00, 0x02]);
}

#[test]
fn test_jump_to_subroutine_and_return() {
    // `LDS #$01FF`, `JSR $0010`; at 0x0010 an RTS returns to the byte after
    // the call.
    let mut memory_manager = MemoryManager::new();
    let mut processor = Processor::new();

    memory_manager.write(0x0000, &[0x8E, 0x01, 0xFF, 0xBD, 0x00, 0x10]);
    memory_manager.write(0x0010, &[0x39]);
    processor.set_memory_manager(memory_manager);
    processor.set_program_counter(0x0000);

    assert_eq!(processor.emulate_instruction().is_err(), false);
    assert_eq!(processor.emulate_instruction().is_err(), false);
    assert_eq!(processor.get_state().program_counter, 0x0010);
    assert_eq!(processor.get_state().stack_pointer, 0x01FD);

    assert_eq!(processor.emulate_instruction().is_err(), false);
    assert_eq!(processor.get_state().program_counter, 0x0006);
    assert_eq!(processor.get_state().stack_pointer, 0x01FF);
}

#[test]
fn test_push_pull_round_trip() {
    // `LDS #$01FF`, `LDA A #$AB`, `PSH A`, `LDA A #$00`, `PUL A`: the byte
    // comes back and the stack pointer returns to its pre-push value.
    let program = [0x8E, 0x01, 0xFF, 0x86, 0xAB, 0x36, 0x86, 0x00, 0x32];
    let processor = run_program(&program, 0, 5);
    let state = processor.get_state();

    assert_eq!(state.accumulator_a, 0xAB);
    assert_eq!(state.stack_pointer, 0x01FF);
}

#[test]
fn test_compare_leaves_accumulator() {
    // `LDA A #$42` then `CMP A #$42`: flags read as for the subtraction of
    // equal values, but A itself is untouched.
    let processor = run_program(&[0x86, 0x42, 0x81, 0x42], 0, 2);
    let state = processor.get_state();

    assert_eq!(state.accumulator_a, 0x42);
    assert_eq!(state.get_condition_code_flag(ConditionCodeFlag::Zero), true);
    assert_eq!(state.get_condition_code_flag(ConditionCodeFlag::Negative), false);
    assert_eq!(state.get_condition_code_flag(ConditionCodeFlag::Carry), false);
    assert_eq!(state.get_condition_code_flag(ConditionCodeFlag::Overflow), false);
}

#[test]
fn test_subtract_and_compare_flags_agree() {
    // SUB and CMP with identical operands produce identical flag effects.
    let subtracted = run_program(&[0x86, 0x10, 0x80, 0x20], 0, 2);
    let compared = run_program(&[0x86, 0x10, 0x81, 0x20], 0, 2);

    assert_eq!(
        subtracted.get_state().condition_code_register,
        compared.get_state().condition_code_register
    );
    assert_eq!(subtracted.get_state().accumulator_a, 0xF0);
    assert_eq!(compared.get_state().accumulator_a, 0x10);
}

#[test]
fn test_index_register_steps_toggle_only_zero() {
    // `SEC`, `LDX #$FFFF`, `SEV`, then `INX`: the index register wraps to
    // zero and the zero flag rises, while carry, overflow and the negative
    // flag left by the load all keep their values.
    let processor = run_program(&[0x0D, 0xCE, 0xFF, 0xFF, 0x0B, 0x08], 0, 4);
    let state = processor.get_state();

    assert_eq!(state.index_register, 0x0000);
    assert_eq!(state.get_condition_code_flag(ConditionCodeFlag::Zero), true);
    assert_eq!(state.get_condition_code_flag(ConditionCodeFlag::Carry), true);
    assert_eq!(state.get_condition_code_flag(ConditionCodeFlag::Overflow), true);
    assert_eq!(state.get_condition_code_flag(ConditionCodeFlag::Negative), true);

    // `DEX` from 0x0001 also reaches zero and touches nothing else.
    let processor = run_program(&[0x0D, 0xCE, 0x00, 0x01, 0x09], 0, 3);
    let state = processor.get_state();

    assert_eq!(state.index_register, 0x0000);
    assert_eq!(state.get_condition_code_flag(ConditionCodeFlag::Zero), true);
    assert_eq!(state.get_condition_code_flag(ConditionCodeFlag::Carry), true);
}

#[test]
fn test_add_wraps_to_zero_with_carry() {
    // `LDA A #$FF` then `ADD A #$01`: the sum wraps to zero with a carry
    // out.
    let processor = run_program(&[0x86, 0xFF, 0x8B, 0x01], 0, 2);
    let state = processor.get_state();

    assert_eq!(state.accumulator_a, 0x00);
    assert_eq!(state.get_condition_code_flag(ConditionCodeFlag::Zero), true);
    assert_eq!(state.get_condition_code_flag(ConditionCodeFlag::Negative), false);
    assert_eq!(state.get_condition_code_flag(ConditionCodeFlag::Carry), true);
    assert_eq!(state.get_condition_code_flag(ConditionCodeFlag::Overflow), false);
}

#[test]
fn test_transfer_condition_codes_round_trip() {
    // `LDA A #$3F`, `TAP`, `TPA`: the flags come back with the two
    // architecturally-unused bits reading as one.
    let processor = run_program(&[0x86, 0x3F, 0x06, 0x07], 0, 3);
    assert_eq!(processor.get_state().accumulator_a, 0xFF);

    let processor = run_program(&[0x86, 0x00, 0x06, 0x07], 0, 3);
    assert_eq!(processor.get_state().accumulator_a, 0xC0);
}

#[test]
fn test_store_accumulator_extended() {
    // `LDA B #$7A` then `STA B $0123`.
    let processor = run_program(&[0xC6, 0x7A, 0xF7, 0x01, 0x23], 0, 2);

    assert_eq!(processor.memory().unwrap().read(0x0123, 1), vec![0x7A]);
    assert_eq!(processor.get_state().accumulator_b, 0x7A);
}

#[test]
fn test_no_memory_manager_error() {
    let mut processor = Processor::new();
    let result = processor.emulate_instruction();

    assert_eq!(result.unwrap_err(), EmulationError::NoMemoryManager);
}

#[test]
fn test_disassembly_error_is_propagated_unchanged() {
    // 0x04 is not an opcode; the state must be untouched by the failed
    // step.
    let mut memory_manager = MemoryManager::new();
    let mut processor = Processor::new();

    memory_manager.write(0x0040, &[0x04]);
    processor.set_memory_manager(memory_manager);
    processor.set_program_counter(0x0040);

    let before = processor.get_state();
    let result = processor.emulate_instruction();

    assert_eq!(
        result.unwrap_err(),
        EmulationError::DisassemblyError(DisassemblyError::InvalidOpcodeByte)
    );
    assert_eq!(processor.get_state(), before);
}

#[test]
fn test_truncated_window_at_end_of_memory() {
    // An extended instruction starting two bytes below the top of memory
    // cannot be fetched whole.
    let mut memory_manager = MemoryManager::new();
    let mut processor = Processor::new();

    memory_manager.write(0xFFFE, &[0xB0, 0x12]);
    processor.set_memory_manager(memory_manager);
    processor.set_program_counter(0xFFFE);

    let result = processor.emulate_instruction();
    assert_eq!(
        result.unwrap_err(),
        EmulationError::DisassemblyError(DisassemblyError::MachineCodeTooShort)
    );
}

#[test]
fn test_logical_shift_right_clears_sign() {
    // `LDA A #$81`, `LSR A`: logical shift clears bit 7 and carries bit 0
    // out.
    let processor = run_program(&[0x86, 0x81, 0x44], 0, 2);
    let state = processor.get_state();

    assert_eq!(state.accumulator_a, 0x40);
    assert_eq!(state.get_condition_code_flag(ConditionCodeFlag::Negative), false);
    assert_eq!(state.get_condition_code_flag(ConditionCodeFlag::Carry), true);
}

#[test]
fn test_arithmetic_shift_right_keeps_sign() {
    // `LDA A #$81`, `ASR A`: the sign bit is preserved.
    let processor = run_program(&[0x86, 0x81, 0x47], 0, 2);
    let state = processor.get_state();

    assert_eq!(state.accumulator_a, 0xC0);
    assert_eq!(state.get_condition_code_flag(ConditionCodeFlag::Negative), true);
    assert_eq!(state.get_condition_code_flag(ConditionCodeFlag::Carry), true);
}

#[test]
fn test_increment_memory_in_place() {
    // `LDX #$0040` then `INC 2,X`: memory at 0x0042 goes from 0x7F to 0x80
    // with the overflow flag set.
    let mut memory_manager = MemoryManager::new();
    let mut processor = Processor::new();

    memory_manager.write(0x0000, &[0xCE, 0x00, 0x40, 0x6C, 0x02]);
    memory_manager.write(0x0042, &[0x7F]);
    processor.set_memory_manager(memory_manager);
    processor.set_program_counter(0x0000);

    assert_eq!(processor.emulate_instruction().is_err(), false);
    assert_eq!(processor.emulate_instruction().is_err(), false);

    assert_eq!(processor.memory().unwrap().read(0x0042, 1), vec![0x80]);
    let state = processor.get_state();
    assert_eq!(state.get_condition_code_flag(ConditionCodeFlag::Overflow), true);
    assert_eq!(state.get_condition_code_flag(ConditionCodeFlag::Negative), true);
}
