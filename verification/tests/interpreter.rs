//! Whole-machine behaviour through the public host interface: loading,
//! cycling, key events, and the error conditions that stop execution.

use chip_eight::chip_eight::ChipEight;
use chip_eight::error::ChipError;

const DIGIT_FIVE_SPRITE: [u8; 5] = [0xF0, 0x80, 0xF0, 0x10, 0xF0];

#[test]
fn glyph_lookup_and_draw_scenario() {
    // LD V0, 5; LD F, V0; DRW V0, V1, 5 — with V1 = 0 the digit-5 glyph
    // lands in the top-left corner.
    let mut machine = ChipEight::new();
    machine.load(&vec![0x60, 0x05, 0xF0, 0x29, 0xD0, 0x15]).unwrap();
    machine.cycle().unwrap();
    assert_eq!(machine.register_value(0), 5);
    machine.cycle().unwrap();
    assert_eq!(machine.index_register(), 25);
    machine.cycle().unwrap();
    // The draw lands at (V0, V1) = (5, 0): an 8x5 block holding the
    // digit-5 glyph, with everything around it untouched.
    let pixels = machine.framebuffer_snapshot();
    for row in 0..5usize {
        for col in 0..8usize {
            let expected = (DIGIT_FIVE_SPRITE[row] >> (7 - col)) & 1 == 1;
            assert_eq!(pixels[row * 64 + 5 + col], expected);
        }
        for col in 0..5usize {
            assert!(!pixels[row * 64 + col]);
        }
        assert!(!pixels[row * 64 + 13]);
    }
    // A draw on a cleared framebuffer erases nothing.
    assert_eq!(machine.register_value(15), 0);
}

#[test]
fn drawing_the_same_glyph_twice_erases_it_and_collides() {
    let mut machine = ChipEight::new();
    machine
        .load(&vec![0x60, 0x05, 0xF0, 0x29, 0xD0, 0x15, 0xD0, 0x15])
        .unwrap();
    for _ in 0..4 {
        machine.cycle().unwrap();
    }
    assert_eq!(machine.register_value(15), 1);
    let pixels = machine.framebuffer_snapshot();
    assert!(pixels.iter().all(|&p| !p));
}

#[test]
fn blocking_key_wait_scenario() {
    // LD V3, K; LD V1, 0x42 — the wait must block until a key arrives.
    let mut machine = ChipEight::new();
    machine.load(&vec![0xF3, 0x0A, 0x61, 0x42]).unwrap();
    machine.cycle().unwrap();
    assert!(machine.is_awaiting_key());
    assert_eq!(machine.program_counter(), 0x202);
    for _ in 0..3 {
        machine.cycle().unwrap();
        assert!(machine.is_awaiting_key());
        assert_eq!(machine.program_counter(), 0x202);
    }
    machine.deliver_key_event(0xA, true);
    assert!(!machine.is_awaiting_key());
    assert_eq!(machine.register_value(3), 10);
    machine.cycle().unwrap();
    assert_eq!(machine.register_value(1), 0x42);
    assert_eq!(machine.program_counter(), 0x204);
}

#[test]
fn awaiting_cycles_still_tick_timers() {
    // LD V0, 3; LD DT, V0; LD V3, K — the armed wait keeps ticking the
    // delay timer once per cycle.
    let mut machine = ChipEight::new();
    machine
        .load(&vec![0x60, 0x03, 0xF0, 0x15, 0xF3, 0x0A])
        .unwrap();
    machine.cycle().unwrap();
    machine.cycle().unwrap();
    // The cycle that set the timer already ticked it once: 3 -> 2.
    assert_eq!(machine.delay_timer(), 2);
    machine.cycle().unwrap();
    assert!(machine.is_awaiting_key());
    machine.cycle().unwrap();
    assert_eq!(machine.delay_timer(), 0);
    machine.cycle().unwrap();
    assert_eq!(machine.delay_timer(), 0);
}

#[test]
fn skip_if_equal_takes_the_branch() {
    // LD V0, 7; SE V0, 7; LD V1, 1; LD V2, 2 — the skip jumps over the
    // load into V1.
    let mut machine = ChipEight::new();
    machine
        .load(&vec![0x60, 0x07, 0x30, 0x07, 0x61, 0x01, 0x62, 0x02])
        .unwrap();
    for _ in 0..3 {
        machine.cycle().unwrap();
    }
    assert_eq!(machine.register_value(1), 0);
    assert_eq!(machine.register_value(2), 2);
}

#[test]
fn skip_if_key_up_and_down() {
    // SKNP V0 with key 0 up: skips over the load into V1.
    let mut machine = ChipEight::new();
    machine
        .load(&vec![0xE0, 0xA1, 0x61, 0x05, 0x62, 0x09])
        .unwrap();
    machine.cycle().unwrap();
    machine.cycle().unwrap();
    assert_eq!(machine.register_value(1), 0);
    assert_eq!(machine.register_value(2), 9);
    // SKP V0 with key 0 held down: also skips.
    let mut machine = ChipEight::new();
    machine
        .load(&vec![0xE0, 0x9E, 0x61, 0x05, 0x62, 0x09])
        .unwrap();
    machine.deliver_key_event(0, true);
    machine.cycle().unwrap();
    machine.cycle().unwrap();
    assert_eq!(machine.register_value(1), 0);
    assert_eq!(machine.register_value(2), 9);
}

#[test]
fn immediate_add_wraps_without_flag() {
    let mut machine = ChipEight::new();
    machine.load(&vec![0x60, 0xFF, 0x70, 0x02]).unwrap();
    machine.cycle().unwrap();
    machine.cycle().unwrap();
    assert_eq!(machine.register_value(0), 1);
    assert_eq!(machine.register_value(15), 0);
}

#[test]
fn index_register_load_and_add() {
    let mut machine = ChipEight::new();
    machine
        .load(&vec![0x60, 0x05, 0xA0, 0x10, 0xF0, 0x1E])
        .unwrap();
    for _ in 0..3 {
        machine.cycle().unwrap();
    }
    assert_eq!(machine.index_register(), 0x15);
}

#[test]
fn bcd_store_and_block_reload() {
    // LD V0, 254; LD I, 0x300; LD B, V0; LD V2..V0, [I] — the three
    // decimal digits come back through the block reload.
    let mut machine = ChipEight::new();
    machine
        .load(&vec![0x60, 0xFE, 0xA3, 0x00, 0xF0, 0x33, 0xF2, 0x65])
        .unwrap();
    for _ in 0..4 {
        machine.cycle().unwrap();
    }
    assert_eq!(machine.register_value(0), 2);
    assert_eq!(machine.register_value(1), 5);
    assert_eq!(machine.register_value(2), 4);
}

#[test]
fn register_spill_and_reload_through_memory() {
    // Fill V0..V2, spill to memory at I, clear them, reload.
    let mut machine = ChipEight::new();
    machine
        .load(&vec![
            0x60, 0x11, // LD V0, 0x11
            0x61, 0x22, // LD V1, 0x22
            0x62, 0x33, // LD V2, 0x33
            0xA3, 0x00, // LD I, 0x300
            0xF2, 0x55, // LD [I], V2
            0x60, 0x00, // LD V0, 0
            0x61, 0x00, // LD V1, 0
            0x62, 0x00, // LD V2, 0
            0xF2, 0x65, // LD V2.., [I]
        ])
        .unwrap();
    for _ in 0..9 {
        machine.cycle().unwrap();
    }
    assert_eq!(machine.register_value(0), 0x11);
    assert_eq!(machine.register_value(1), 0x22);
    assert_eq!(machine.register_value(2), 0x33);
}

#[test]
fn delay_timer_readback() {
    // LD V0, 3; LD DT, V0; LD V1, DT — the read happens one tick after
    // the store.
    let mut machine = ChipEight::new();
    machine
        .load(&vec![0x60, 0x03, 0xF0, 0x15, 0xF1, 0x07])
        .unwrap();
    for _ in 0..3 {
        machine.cycle().unwrap();
    }
    assert_eq!(machine.register_value(1), 2);
}

#[test]
fn sound_timer_set_by_instruction() {
    let mut machine = ChipEight::new();
    machine.load(&vec![0x60, 0x04, 0xF0, 0x18]).unwrap();
    machine.cycle().unwrap();
    machine.cycle().unwrap();
    // The setting cycle also ticked the fresh value once: 4 -> 3.
    assert_eq!(machine.sound_timer_value(), 3);
}

#[test]
fn masked_random_assignment() {
    let mut machine = ChipEight::new();
    machine.load(&vec![0xC0, 0x00]).unwrap();
    machine.cycle().unwrap();
    assert_eq!(machine.register_value(0), 0);
}

#[test]
fn jump_and_jump_plus_v0() {
    let mut machine = ChipEight::new();
    machine.load(&vec![0x12, 0x06]).unwrap();
    machine.cycle().unwrap();
    assert_eq!(machine.program_counter(), 0x206);
    let mut machine = ChipEight::new();
    machine.load(&vec![0x60, 0x04, 0xB2, 0x00]).unwrap();
    machine.cycle().unwrap();
    machine.cycle().unwrap();
    assert_eq!(machine.program_counter(), 0x204);
}

#[test]
fn screen_clear_instruction() {
    let mut machine = ChipEight::new();
    machine
        .load(&vec![0x60, 0x05, 0xF0, 0x29, 0xD0, 0x15, 0x00, 0xE0])
        .unwrap();
    for _ in 0..4 {
        machine.cycle().unwrap();
    }
    let pixels = machine.framebuffer_snapshot();
    assert!(pixels.iter().all(|&p| !p));
}

#[test]
fn subroutine_call_and_return_through_memory() {
    // CALL 0x204; (target) LD V1, 9; RET; — after the return the next
    // fetch is the instruction following the call.
    let mut machine = ChipEight::new();
    machine
        .load(&vec![0x22, 0x04, 0x63, 0x07, 0x61, 0x09, 0x00, 0xEE])
        .unwrap();
    machine.cycle().unwrap();
    assert_eq!(machine.program_counter(), 0x204);
    machine.cycle().unwrap();
    assert_eq!(machine.register_value(1), 9);
    machine.cycle().unwrap();
    assert_eq!(machine.program_counter(), 0x202);
    machine.cycle().unwrap();
    assert_eq!(machine.register_value(3), 7);
}

#[test]
fn errors_stop_the_machine() {
    // Return with an empty stack.
    let mut machine = ChipEight::new();
    machine.load(&vec![0x00, 0xEE]).unwrap();
    assert_eq!(machine.cycle(), Err(ChipError::StackUnderflow));
    // An undecodable word, carrying the opcode and its address.
    let mut machine = ChipEight::new();
    machine.load(&vec![0x50, 0x01]).unwrap();
    assert_eq!(
        machine.cycle(),
        Err(ChipError::InvalidOpcode { opcode: 0x5001, address: 0x200 })
    );
    // A zero word (fresh memory) is undecodable too, not a silent no-op.
    let mut machine = ChipEight::new();
    machine.load(&vec![]).unwrap();
    assert_eq!(
        machine.cycle(),
        Err(ChipError::InvalidOpcode { opcode: 0x0000, address: 0x200 })
    );
    // A fetch past the end of memory.
    let mut machine = ChipEight::new();
    machine.load(&vec![0x1F, 0xFF]).unwrap();
    machine.cycle().unwrap();
    assert_eq!(machine.cycle(), Err(ChipError::OutOfBounds));
    // A glyph lookup for a non-digit.
    let mut machine = ChipEight::new();
    machine.load(&vec![0x60, 0x10, 0xF0, 0x29]).unwrap();
    machine.cycle().unwrap();
    assert_eq!(machine.cycle(), Err(ChipError::InvalidDigit));
    // Seventeen nested calls overflow the stack.
    let mut machine = ChipEight::new();
    let mut rom: Vec<u8> = Vec::new();
    for i in 0..17u16 {
        let target = 0x202 + 2 * i;
        rom.push(0x20 | (target >> 8) as u8);
        rom.push((target & 0xFF) as u8);
    }
    machine.load(&rom).unwrap();
    for _ in 0..16 {
        machine.cycle().unwrap();
    }
    assert_eq!(machine.cycle(), Err(ChipError::StackOverflow));
}

#[test]
fn invalid_sub_opcodes_are_reported() {
    for rom in [
        vec![0x80u8, 0x08], // arithmetic family, unknown low nibble
        vec![0x90, 0x11], // register-skip family with nonzero low nibble
        vec![0xE0, 0xFF], // keyboard family, unknown low byte
        vec![0xF0, 0xFF], // utility family, unknown low byte
    ] {
        let mut machine = ChipEight::new();
        machine.load(&rom).unwrap();
        let opcode = ((rom[0] as u16) << 8) | rom[1] as u16;
        assert_eq!(
            machine.cycle(),
            Err(ChipError::InvalidOpcode { opcode, address: 0x200 })
        );
    }
}

#[test]
fn draw_past_end_of_memory_is_out_of_bounds() {
    // LD I, 0xFFF; DRW V0, V1, 5 — the five sprite rows would run past
    // the address space.
    let mut machine = ChipEight::new();
    machine.load(&vec![0xAF, 0xFF, 0xD0, 0x15]).unwrap();
    machine.cycle().unwrap();
    assert_eq!(machine.cycle(), Err(ChipError::OutOfBounds));
}

#[test]
fn block_store_past_end_of_memory_is_out_of_bounds() {
    // LD I, 0xFFE; LD B, V0 — three decimal digits do not fit.
    let mut machine = ChipEight::new();
    machine.load(&vec![0xAF, 0xFE, 0xF0, 0x33]).unwrap();
    machine.cycle().unwrap();
    assert_eq!(machine.cycle(), Err(ChipError::OutOfBounds));
}

#[test]
fn oversized_program_is_rejected() {
    let mut machine = ChipEight::new();
    let rom: Vec<u8> = vec![0; 0xFFF - 0x200 + 1];
    assert_eq!(machine.load(&rom), Err(ChipError::ProgramTooLarge));
    assert_eq!(machine.run(&rom, 10), Err(ChipError::ProgramTooLarge));
}

#[test]
fn run_drives_whole_programs() {
    let mut machine = ChipEight::new();
    assert_eq!(
        machine.run(&vec![0x60, 0x2A, 0x61, 0x07, 0x80, 0x14], 3),
        Ok(())
    );
    assert_eq!(machine.register_value(0), 0x31);
    // An error inside the burst surfaces.
    let mut machine = ChipEight::new();
    assert_eq!(
        machine.run(&vec![0x00, 0xEE], 5),
        Err(ChipError::StackUnderflow)
    );
}

#[test]
fn default_machine_matches_fresh_machine() {
    let machine: ChipEight = Default::default();
    assert_eq!(machine.program_counter(), 0x200);
    assert_eq!(machine.index_register(), 0);
    assert_eq!(machine.sound_timer_value(), 0);
    assert!(!machine.is_awaiting_key());
}
