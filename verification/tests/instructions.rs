use momulator::memory_manager::MemoryManager;
use momulator::processor::{ConditionCodeFlag, Processor};

fn processor_with(program: &[u8], start: u16) -> Processor {
    let mut memory_manager = MemoryManager::new();
    let mut processor = Processor::new();

    memory_manager.write(start, program);
    processor.set_memory_manager(memory_manager);
    processor.set_program_counter(start);

    processor
}

fn step(processor: &mut Processor, steps: usize) {
    for _ in 0..steps {
        assert_eq!(processor.emulate_instruction().is_err(), false);
    }
}

#[test]
fn test_negate_accumulator() {
    // `LDA A #$01`, `NEG A`: two's complement, carry set for a nonzero
    // result.
    let mut processor = processor_with(&[0x86, 0x01, 0x40], 0);
    step(&mut processor, 2);
    let state = processor.get_state();

    assert_eq!(state.accumulator_a, 0xFF);
    assert_eq!(state.get_condition_code_flag(ConditionCodeFlag::Negative), true);
    assert_eq!(state.get_condition_code_flag(ConditionCodeFlag::Carry), true);
    assert_eq!(state.get_condition_code_flag(ConditionCodeFlag::Overflow), false);
}

#[test]
fn test_complement_accumulator() {
    // `LDA A #$FF`, `COM A`: one's complement, carry always set.
    let mut processor = processor_with(&[0x86, 0xFF, 0x43], 0);
    step(&mut processor, 2);
    let state = processor.get_state();

    assert_eq!(state.accumulator_a, 0x00);
    assert_eq!(state.get_condition_code_flag(ConditionCodeFlag::Zero), true);
    assert_eq!(state.get_condition_code_flag(ConditionCodeFlag::Carry), true);
    assert_eq!(state.get_condition_code_flag(ConditionCodeFlag::Overflow), false);
}

#[test]
fn test_rotate_left_through_carry() {
    // `SEC`, `LDA A #$80`, `ROL A`: the set carry enters bit 0 while bit 7
    // leaves into the carry; overflow reads `N xor C`.
    let mut processor = processor_with(&[0x0D, 0x86, 0x80, 0x49], 0);
    step(&mut processor, 3);
    let state = processor.get_state();

    assert_eq!(state.accumulator_a, 0x01);
    assert_eq!(state.get_condition_code_flag(ConditionCodeFlag::Carry), true);
    assert_eq!(state.get_condition_code_flag(ConditionCodeFlag::Negative), false);
    assert_eq!(state.get_condition_code_flag(ConditionCodeFlag::Overflow), true);
}

#[test]
fn test_rotate_right_through_carry() {
    // `SEC`, `LDA A #$01`, `ROR A`: the set carry enters bit 7 while bit 0
    // leaves into the carry.
    let mut processor = processor_with(&[0x0D, 0x86, 0x01, 0x46], 0);
    step(&mut processor, 3);
    let state = processor.get_state();

    assert_eq!(state.accumulator_a, 0x80);
    assert_eq!(state.get_condition_code_flag(ConditionCodeFlag::Carry), true);
    assert_eq!(state.get_condition_code_flag(ConditionCodeFlag::Negative), true);
    assert_eq!(state.get_condition_code_flag(ConditionCodeFlag::Overflow), false);
}

#[test]
fn test_arithmetic_shift_left_accumulator() {
    // `LDA A #$C0`, `ASL A`: bit 7 leaves into the carry.
    let mut processor = processor_with(&[0x86, 0xC0, 0x48], 0);
    step(&mut processor, 2);
    let state = processor.get_state();

    assert_eq!(state.accumulator_a, 0x80);
    assert_eq!(state.get_condition_code_flag(ConditionCodeFlag::Carry), true);
    assert_eq!(state.get_condition_code_flag(ConditionCodeFlag::Negative), true);
    assert_eq!(state.get_condition_code_flag(ConditionCodeFlag::Overflow), false);
}

#[test]
fn test_clear_accumulator() {
    let mut processor = processor_with(&[0x86, 0x55, 0x4F], 0);
    step(&mut processor, 2);
    let state = processor.get_state();

    assert_eq!(state.accumulator_a, 0x00);
    assert_eq!(state.get_condition_code_flag(ConditionCodeFlag::Zero), true);
    assert_eq!(state.get_condition_code_flag(ConditionCodeFlag::Negative), false);
    assert_eq!(state.get_condition_code_flag(ConditionCodeFlag::Overflow), false);
    assert_eq!(state.get_condition_code_flag(ConditionCodeFlag::Carry), false);
}

#[test]
fn test_test_memory_leaves_it_unchanged() {
    // `TST $0040` on a byte with the sign bit set: flags only.
    let mut memory_manager = MemoryManager::new();
    let mut processor = Processor::new();

    memory_manager.write(0x0000, &[0x7D, 0x00, 0x40]);
    memory_manager.write(0x0040, &[0x80]);
    processor.set_memory_manager(memory_manager);
    processor.set_program_counter(0x0000);
    step(&mut processor, 1);

    assert_eq!(processor.memory().unwrap().read(0x0040, 1), vec![0x80]);
    let state = processor.get_state();
    assert_eq!(state.program_counter, 0x0003);
    assert_eq!(state.get_condition_code_flag(ConditionCodeFlag::Negative), true);
    assert_eq!(state.get_condition_code_flag(ConditionCodeFlag::Zero), false);
    assert_eq!(state.get_condition_code_flag(ConditionCodeFlag::Carry), false);
    assert_eq!(state.get_condition_code_flag(ConditionCodeFlag::Overflow), false);
}

#[test]
fn test_subtract_with_carry_uses_borrow() {
    // `SEC`, `LDA A #$10`, `SBC A #$01`: the set carry is an extra borrow.
    let mut processor = processor_with(&[0x0D, 0x86, 0x10, 0x82, 0x01], 0);
    step(&mut processor, 3);
    let state = processor.get_state();

    assert_eq!(state.accumulator_a, 0x0E);
    assert_eq!(state.get_condition_code_flag(ConditionCodeFlag::Carry), false);
}

#[test]
fn test_add_with_carry_uses_carry() {
    // `SEC`, `LDA A #$10`, `ADC A #$01`: the set carry adds one more.
    let mut processor = processor_with(&[0x0D, 0x86, 0x10, 0x89, 0x01], 0);
    step(&mut processor, 3);
    let state = processor.get_state();

    assert_eq!(state.accumulator_a, 0x12);
    assert_eq!(state.get_condition_code_flag(ConditionCodeFlag::Carry), false);
}

#[test]
fn test_inherent_accumulator_arithmetic() {
    // `LDA A #$05`, `LDA B #$03`, `SBA`, `ABA`: A ends at (5 - 3) + 3 and
    // B is untouched throughout.
    let mut processor = processor_with(&[0x86, 0x05, 0xC6, 0x03, 0x10, 0x1B], 0);
    step(&mut processor, 3);
    assert_eq!(processor.get_state().accumulator_a, 0x02);

    step(&mut processor, 1);
    let state = processor.get_state();
    assert_eq!(state.accumulator_a, 0x05);
    assert_eq!(state.accumulator_b, 0x03);
}

#[test]
fn test_compare_accumulators_leaves_both() {
    // `LDA A #$05`, `LDA B #$05`, `CBA`: equal values raise zero and leave
    // both accumulators.
    let mut processor = processor_with(&[0x86, 0x05, 0xC6, 0x05, 0x11], 0);
    step(&mut processor, 3);
    let state = processor.get_state();

    assert_eq!(state.accumulator_a, 0x05);
    assert_eq!(state.accumulator_b, 0x05);
    assert_eq!(state.get_condition_code_flag(ConditionCodeFlag::Zero), true);
}

#[test]
fn test_logical_operations() {
    // AND of disjoint masks is zero.
    let mut processor = processor_with(&[0x86, 0xF0, 0x84, 0x0F], 0);
    step(&mut processor, 2);
    assert_eq!(processor.get_state().accumulator_a, 0x00);
    assert_eq!(
        processor.get_state().get_condition_code_flag(ConditionCodeFlag::Zero),
        true
    );

    // OR of complementary masks is all ones.
    let mut processor = processor_with(&[0x86, 0xF0, 0x8A, 0x0F], 0);
    step(&mut processor, 2);
    assert_eq!(processor.get_state().accumulator_a, 0xFF);

    // XOR clears the common bits.
    let mut processor = processor_with(&[0x86, 0xFF, 0x88, 0x0F], 0);
    step(&mut processor, 2);
    assert_eq!(processor.get_state().accumulator_a, 0xF0);

    // BIT sets the flags of the conjunction without touching A.
    let mut processor = processor_with(&[0x86, 0xF0, 0x85, 0x0F], 0);
    step(&mut processor, 2);
    assert_eq!(processor.get_state().accumulator_a, 0xF0);
    assert_eq!(
        processor.get_state().get_condition_code_flag(ConditionCodeFlag::Zero),
        true
    );
}

#[test]
fn test_jump_indexed_and_extended() {
    // `LDX #$0100`, `JMP 5,X`.
    let mut processor = processor_with(&[0xCE, 0x01, 0x00, 0x6E, 0x05], 0);
    step(&mut processor, 2);
    assert_eq!(processor.get_state().program_counter, 0x0105);

    // `JMP $1234`.
    let mut processor = processor_with(&[0x7E, 0x12, 0x34], 0);
    step(&mut processor, 1);
    assert_eq!(processor.get_state().program_counter, 0x1234);
}

#[test]
fn test_load_and_store_index_register_memory_forms() {
    // `LDX $0020` (extended) reads a big-endian word; `STX $40` (direct)
    // writes it back elsewhere.
    let mut memory_manager = MemoryManager::new();
    let mut processor = Processor::new();

    memory_manager.write(0x0000, &[0xFE, 0x00, 0x20, 0xDF, 0x40]);
    memory_manager.write(0x0020, &[0xAB, 0xCD]);
    processor.set_memory_manager(memory_manager);
    processor.set_program_counter(0x0000);
    step(&mut processor, 2);

    let state = processor.get_state();
    assert_eq!(state.index_register, 0xABCD);
    assert_eq!(state.get_condition_code_flag(ConditionCodeFlag::Negative), true);
    assert_eq!(processor.memory().unwrap().read(0x0040, 2), vec![0xAB, 0xCD]);
    assert_eq!(state.program_counter, 0x0005);
}

#[test]
fn test_compare_index_register_keeps_carry() {
    // `LDX #$0100`, `SEC`, `CPX #$0100`: equality raises zero, and CPX
    // leaves the carry alone.
    let mut processor = processor_with(&[0xCE, 0x01, 0x00, 0x0D, 0x8C, 0x01, 0x00], 0);
    step(&mut processor, 3);
    let state = processor.get_state();

    assert_eq!(state.index_register, 0x0100);
    assert_eq!(state.get_condition_code_flag(ConditionCodeFlag::Zero), true);
    assert_eq!(state.get_condition_code_flag(ConditionCodeFlag::Negative), false);
    assert_eq!(state.get_condition_code_flag(ConditionCodeFlag::Carry), true);
}

#[test]
fn test_stack_pointer_transfers_and_steps() {
    // `LDS #$0200`, `TSX`, `TXS`, `INS`, `DES`: the transfers apply their
    // off-by-one rule and the steps undo each other.
    let mut processor = processor_with(&[0x8E, 0x02, 0x00, 0x30, 0x35, 0x31, 0x34], 0);
    step(&mut processor, 2);
    assert_eq!(processor.get_state().index_register, 0x0201);

    step(&mut processor, 1);
    assert_eq!(processor.get_state().stack_pointer, 0x0200);

    step(&mut processor, 1);
    assert_eq!(processor.get_state().stack_pointer, 0x0201);

    step(&mut processor, 1);
    assert_eq!(processor.get_state().stack_pointer, 0x0200);
}

#[test]
fn test_store_accumulator_direct_and_indexed() {
    // `LDA A #$5A`, `STA A $80`, `LDX #$0090`, `STA A 2,X`.
    let mut processor = processor_with(&[0x86, 0x5A, 0x97, 0x80, 0xCE, 0x00, 0x90, 0xA7, 0x02], 0);
    step(&mut processor, 4);

    assert_eq!(processor.memory().unwrap().read(0x0080, 1), vec![0x5A]);
    assert_eq!(processor.memory().unwrap().read(0x0092, 1), vec![0x5A]);
}

#[test]
fn test_load_accumulator_direct() {
    let mut memory_manager = MemoryManager::new();
    let mut processor = Processor::new();

    memory_manager.write(0x0000, &[0x96, 0x50]);
    memory_manager.write(0x0050, &[0x77]);
    processor.set_memory_manager(memory_manager);
    processor.set_program_counter(0x0000);
    step(&mut processor, 1);

    assert_eq!(processor.get_state().accumulator_a, 0x77);
}

#[test]
fn test_decrement_accumulator_overflow_flag() {
    // `LDA A #$80`, `DEC A`: stepping off the most negative value raises
    // overflow.
    let mut processor = processor_with(&[0x86, 0x80, 0x4A], 0);
    step(&mut processor, 2);
    let state = processor.get_state();

    assert_eq!(state.accumulator_a, 0x7F);
    assert_eq!(state.get_condition_code_flag(ConditionCodeFlag::Overflow), true);
    assert_eq!(state.get_condition_code_flag(ConditionCodeFlag::Negative), false);
}

#[test]
fn test_decimal_adjust_advances_only() {
    let mut processor = processor_with(&[0x86, 0x99, 0x19], 0);
    step(&mut processor, 2);
    let state = processor.get_state();

    assert_eq!(state.accumulator_a, 0x99);
    assert_eq!(state.program_counter, 0x0003);
}

#[test]
fn test_program_counter_wraps_past_top_of_memory() {
    // A one-byte instruction at the last address executes, and the program
    // counter wraps to zero.
    let mut processor = processor_with(&[0x01], 0xFFFF);
    step(&mut processor, 1);

    assert_eq!(processor.get_state().program_counter, 0x0000);
}

#[test]
fn test_store_stack_pointer_memory_form() {
    // `LDS #$1234`, `STS $60`: the word lands high byte first.
    let mut processor = processor_with(&[0x8E, 0x12, 0x34, 0x9F, 0x60], 0);
    step(&mut processor, 2);

    assert_eq!(processor.memory().unwrap().read(0x0060, 2), vec![0x12, 0x34]);
}
