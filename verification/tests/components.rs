//! Component-level behaviour: memory layout and bounds, glyph lookup,
//! keypad state, timers, and the opcode decode helpers.

use chip_eight::error::ChipError;
use chip_eight::keypad::{Key, Keypad, Position};
use chip_eight::memory::Memory;
use chip_eight::opcode::{
    address_operand, family, immediate_byte, left_pad, low_nibble, right_shift, x_register,
    y_register,
};
use chip_eight::sound::Sound;

const SPRITE_TABLE: [u8; 80] = [
    0xF0, 0x90, 0x90, 0x90, 0xF0, // 0
    0x20, 0x60, 0x20, 0x20, 0x70, // 1
    0xF0, 0x10, 0xF0, 0x80, 0xF0, // 2
    0xF0, 0x10, 0xF0, 0x10, 0xF0, // 3
    0x90, 0x90, 0xF0, 0x10, 0x10, // 4
    0xF0, 0x80, 0xF0, 0x10, 0xF0, // 5
    0xF0, 0x80, 0xF0, 0x90, 0xF0, // 6
    0xF0, 0x10, 0x20, 0x40, 0x40, // 7
    0xF0, 0x90, 0xF0, 0x90, 0xF0, // 8
    0xF0, 0x90, 0xF0, 0x10, 0xF0, // 9
    0xF0, 0x90, 0xF0, 0x90, 0x90, // A
    0xE0, 0x90, 0xE0, 0x90, 0xE0, // B
    0xF0, 0x80, 0x80, 0x80, 0xF0, // C
    0xE0, 0x90, 0x90, 0x90, 0xE0, // D
    0xF0, 0x80, 0xF0, 0x80, 0xF0, // E
    0xF0, 0x80, 0xF0, 0x80, 0x80, // F
];

#[test]
fn load_places_program_at_0x200() {
    let mut memory = Memory::new();
    let program: Vec<u8> = vec![0xDE, 0xAD, 0xBE, 0xEF, 0x42];
    assert_eq!(memory.load(&program), Ok(()));
    let read_back = memory.get_bytes(0x200, 5).unwrap();
    assert_eq!(read_back, program);
    // Bytes below 0x200 hold only glyph data: the table, then zeroes.
    let low = memory.get_bytes(0, 80).unwrap();
    assert_eq!(low, SPRITE_TABLE.to_vec());
    let mut offset = 80u16;
    while offset < 0x200 {
        let chunk = memory.get_bytes(offset, 16).unwrap();
        assert!(chunk.iter().all(|&b| b == 0));
        offset += 16;
    }
    // Bytes past the program are untouched zeroes.
    let after = memory.get_bytes(0x205, 16).unwrap();
    assert!(after.iter().all(|&b| b == 0));
}

#[test]
fn load_accepts_largest_program_and_rejects_larger() {
    let mut memory = Memory::new();
    let largest: Vec<u8> = vec![0xAB; 0xFFF - 0x200];
    assert_eq!(memory.load(&largest), Ok(()));
    let mut memory = Memory::new();
    let too_large: Vec<u8> = vec![0xAB; 0xFFF - 0x200 + 1];
    assert_eq!(memory.load(&too_large), Err(ChipError::ProgramTooLarge));
    // The rejected image changed nothing: memory is still all zero.
    let low = memory.get_bytes(0, 80).unwrap();
    assert!(low.iter().all(|&b| b == 0));
}

#[test]
fn glyph_addresses_are_distinct_and_hold_reference_sprites() {
    let mut memory = Memory::new();
    memory.load(&vec![]).unwrap();
    let mut offsets: Vec<u8> = Vec::new();
    for digit in 0..16u8 {
        let offset = memory.get_hex_sprite_index(digit).unwrap();
        assert!(!offsets.contains(&offset));
        offsets.push(offset);
        let rows = memory.get_bytes(offset as u16, 5).unwrap();
        for row in 0..5usize {
            assert_eq!(rows[row], SPRITE_TABLE[digit as usize * 5 + row]);
        }
    }
    assert_eq!(memory.get_hex_sprite_index(16), Err(ChipError::InvalidDigit));
    assert_eq!(memory.get_hex_sprite_index(255), Err(ChipError::InvalidDigit));
}

#[test]
fn opcode_reads_are_big_endian_and_bounds_checked() {
    let mut memory = Memory::new();
    memory.write(0x300, 0xAB).unwrap();
    memory.write(0x301, 0xCD).unwrap();
    assert_eq!(memory.get_opcode(0x300), Ok(0xABCD));
    assert_eq!(memory.get_opcode(0xFFF), Err(ChipError::OutOfBounds));
    assert_eq!(memory.get_opcode(0xFFE), Ok(0x0000));
    assert_eq!(memory.write(0x1000, 1), Err(ChipError::OutOfBounds));
}

#[test]
fn bulk_memory_access_is_bounds_checked() {
    let mut memory = Memory::new();
    assert_eq!(
        memory.set_bytes(0xFFF, vec![1, 2]),
        Err(ChipError::OutOfBounds)
    );
    assert_eq!(memory.set_bytes(0xFFE, vec![7, 9]), Ok(()));
    assert_eq!(memory.get_bytes(0xFFE, 2).unwrap(), vec![7, 9]);
    assert_eq!(memory.get_bytes(0xFFF, 2), Err(ChipError::OutOfBounds));
}

#[test]
fn keypad_records_positions() {
    let mut keypad = Keypad::new();
    for key in 0..16u8 {
        assert_eq!(keypad.get_key(key), Position::UP);
    }
    keypad.set_key(0xA, Position::DOWN);
    assert_eq!(keypad.get_key(0xA), Position::DOWN);
    assert_eq!(keypad.get_key(0x9), Position::UP);
    keypad.set_key(0xA, Position::UP);
    assert_eq!(keypad.get_key(0xA), Position::UP);
}

#[test]
fn key_indices_cover_all_sixteen_keys() {
    let keys = [
        Key::ZERO,
        Key::ONE,
        Key::TWO,
        Key::THREE,
        Key::FOUR,
        Key::FIVE,
        Key::SIX,
        Key::SEVEN,
        Key::EIGHT,
        Key::NINE,
        Key::A,
        Key::B,
        Key::C,
        Key::D,
        Key::E,
        Key::F,
    ];
    for (expected, key) in keys.iter().enumerate() {
        assert_eq!(key.index(), expected as u8);
    }
}

#[test]
fn sound_timer_counts_down_to_zero_and_stays() {
    let mut sound = Sound::new();
    assert_eq!(sound.get_sound_timer(), 0);
    sound.set_sound_timer(3);
    sound.tick();
    sound.tick();
    assert_eq!(sound.get_sound_timer(), 1);
    sound.tick();
    assert_eq!(sound.get_sound_timer(), 0);
    sound.tick();
    assert_eq!(sound.get_sound_timer(), 0);
}

#[test]
fn decode_helpers_slice_the_instruction_word() {
    assert_eq!(family(0xABCD), 0xA);
    assert_eq!(address_operand(0xABCD), 0xBCD);
    assert_eq!(x_register(0xABCD), 0xB);
    assert_eq!(y_register(0xABCD), 0xC);
    assert_eq!(immediate_byte(0xABCD), 0xCD);
    assert_eq!(low_nibble(0xABCD), 0xD);
}

#[test]
fn right_shift_drops_whole_hex_digits() {
    assert_eq!(right_shift(0xABCD, 0), 0xABCD);
    assert_eq!(right_shift(0xABCD, 1), 0x0ABC);
    assert_eq!(right_shift(0xABCD, 2), 0x00AB);
    assert_eq!(right_shift(0xABCD, 3), 0x000A);
    assert_eq!(right_shift(0xABCD, 4), 0x0000);
}

#[test]
fn left_pad_keeps_low_hex_digits() {
    assert_eq!(left_pad(0xABCD, 1), 0xBCD);
    assert_eq!(left_pad(0xABCD, 2), 0xCD);
    assert_eq!(left_pad(0xABCD, 3), 0xD);
    assert_eq!(left_pad(0xABCD, 4), 0);
}
