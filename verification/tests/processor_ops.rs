//! Register-file behaviour: arithmetic flags, shifts, the call stack,
//! the delay timer, and the key-wait latch.

use chip_eight::error::ChipError;
use chip_eight::processor::Processor;

#[test]
fn arithmetic_carry_flag() {
    // 200 + 100 overflows a byte: the flag register reports the carry
    // and the destination keeps the sum modulo 256.
    let mut processor = Processor::new();
    processor.set_register_value(0, 200);
    processor.set_register_value(1, 100);
    processor.set_opcode(0x8014);
    processor.add_registers();
    assert_eq!(processor.get_register_value(0), 44);
    assert_eq!(processor.get_register_value(15), 1);
    // 20 + 30 stays within a byte: no carry.
    let mut processor = Processor::new();
    processor.set_register_value(0, 20);
    processor.set_register_value(1, 30);
    processor.set_opcode(0x8014);
    processor.add_registers();
    assert_eq!(processor.get_register_value(0), 50);
    assert_eq!(processor.get_register_value(15), 0);
}

#[test]
fn subtract_borrow_flag() {
    // 10 - 20 borrows: flag 0, result wraps.
    let mut processor = Processor::new();
    processor.set_register_value(0, 10);
    processor.set_register_value(1, 20);
    processor.set_opcode(0x8015);
    processor.sub_registers();
    assert_eq!(processor.get_register_value(0), 246);
    assert_eq!(processor.get_register_value(15), 0);
    // 20 - 10 does not borrow: flag 1.
    let mut processor = Processor::new();
    processor.set_register_value(0, 20);
    processor.set_register_value(1, 10);
    processor.set_opcode(0x8015);
    processor.sub_registers();
    assert_eq!(processor.get_register_value(0), 10);
    assert_eq!(processor.get_register_value(15), 1);
}

#[test]
fn reverse_subtract_borrow_flag() {
    // V0 = V1 - V0 with V1 >= V0: flag 1.
    let mut processor = Processor::new();
    processor.set_register_value(0, 5);
    processor.set_register_value(1, 20);
    processor.set_opcode(0x8017);
    processor.sub_reverse_registers();
    assert_eq!(processor.get_register_value(0), 15);
    assert_eq!(processor.get_register_value(15), 1);
    // V1 < V0 borrows: flag 0, result wraps.
    let mut processor = Processor::new();
    processor.set_register_value(0, 20);
    processor.set_register_value(1, 5);
    processor.set_opcode(0x8017);
    processor.sub_reverse_registers();
    assert_eq!(processor.get_register_value(0), 241);
    assert_eq!(processor.get_register_value(15), 0);
}

#[test]
fn shift_right_captures_low_bit() {
    let mut processor = Processor::new();
    processor.set_register_value(1, 11);
    processor.set_opcode(0x8106);
    processor.div_by_two();
    assert_eq!(processor.get_register_value(1), 5);
    assert_eq!(processor.get_register_value(15), 1);
    let mut processor = Processor::new();
    processor.set_register_value(1, 8);
    processor.set_opcode(0x8106);
    processor.div_by_two();
    assert_eq!(processor.get_register_value(1), 4);
    assert_eq!(processor.get_register_value(15), 0);
}

#[test]
fn shift_left_captures_high_bit() {
    let mut processor = Processor::new();
    processor.set_register_value(2, 0x81);
    processor.set_opcode(0x820E);
    processor.multiply_by_two();
    assert_eq!(processor.get_register_value(2), 0x02);
    assert_eq!(processor.get_register_value(15), 1);
    let mut processor = Processor::new();
    processor.set_register_value(2, 0x41);
    processor.set_opcode(0x820E);
    processor.multiply_by_two();
    assert_eq!(processor.get_register_value(2), 0x82);
    assert_eq!(processor.get_register_value(15), 0);
}

#[test]
fn call_then_return_restores_counter_and_stack() {
    let mut processor = Processor::new();
    assert_eq!(processor.get_program_counter(), 0x200);
    processor.set_opcode(0x2ABC);
    assert_eq!(processor.call(), Ok(()));
    assert_eq!(processor.get_program_counter(), 0xABC);
    assert_eq!(processor.subroutine_return(), Ok(()));
    assert_eq!(processor.get_program_counter(), 0x200);
    // The stack is back to empty: another return underflows.
    assert_eq!(processor.subroutine_return(), Err(ChipError::StackUnderflow));
}

#[test]
fn seventeenth_nested_call_overflows() {
    let mut processor = Processor::new();
    processor.set_opcode(0x2222);
    for _ in 0..16 {
        assert_eq!(processor.call(), Ok(()));
    }
    assert_eq!(processor.call(), Err(ChipError::StackOverflow));
}

#[test]
fn delay_timer_decays_to_zero_and_stays() {
    let mut processor = Processor::new();
    processor.set_register_value(3, 5);
    processor.set_opcode(0xF315);
    processor.set_delay_timer(3);
    assert_eq!(processor.get_delay_timer(), 5);
    for _ in 0..5 {
        processor.tick();
    }
    assert_eq!(processor.get_delay_timer(), 0);
    processor.tick();
    processor.tick();
    assert_eq!(processor.get_delay_timer(), 0);
}

#[test]
fn wait_latch_arms_and_resolves() {
    let mut processor = Processor::new();
    assert!(!processor.is_waiting());
    processor.wait(7);
    assert!(processor.is_waiting());
    processor.end_wait(0xC);
    assert!(!processor.is_waiting());
    assert_eq!(processor.get_register_value(7), 0xC);
}

#[test]
fn random_assignment_respects_mask() {
    let mut processor = Processor::new();
    processor.set_opcode(0xC500);
    processor.assign_random();
    assert_eq!(processor.get_register_value(5), 0);
    processor.set_opcode(0xC60F);
    processor.assign_random();
    assert!(processor.get_register_value(6) <= 0x0F);
}

#[test]
fn register_block_transfer_roundtrip() {
    let mut processor = Processor::new();
    for i in 0..4usize {
        processor.set_register_value(i, (10 + i) as u8);
    }
    let values = processor.get_values_upto_register(3);
    assert_eq!(values, vec![10, 11, 12, 13]);
    let mut other = Processor::new();
    other.set_register_value(5, 99);
    other.set_values_upto_register(values);
    assert_eq!(other.get_register_value(0), 10);
    assert_eq!(other.get_register_value(3), 13);
    // Registers past the written block keep their values.
    assert_eq!(other.get_register_value(5), 99);
}
