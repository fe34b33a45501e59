//! A verified interpreter for the CHIP-8 fantasy architecture: a flat
//! 4 KiB memory with built-in glyph sprites, sixteen 8-bit registers, a
//! 16-bit index register, a call stack of depth 16, two countdown timers,
//! a 64x32 monochrome framebuffer with XOR sprite drawing, a 16-key
//! keypad, and the full 35-opcode fetch-decode-execute cycle.

pub mod chip_eight;
pub mod error;
pub mod graphics;
pub mod keypad;
pub mod machine;
pub mod memory;
pub mod opcode;
pub mod processor;
pub mod sound;
