//! Error kinds surfaced by the interpreter. None of these is silently
//! ignored: the machine stops the current operation and reports.

use vstd::prelude::*;

verus! {

/// Everything that can go wrong while loading or running a program.
#[derive(Clone, Copy, Debug, PartialEq, Eq, Structural)]
pub enum ChipError {
    /// A program image longer than the addressable program region.
    ProgramTooLarge,
    /// A memory access outside `0x000`..=`0xFFF`.
    OutOfBounds,
    /// A glyph-sprite lookup for a value outside `0`..=`15`.
    InvalidDigit,
    /// A `call` issued while the call stack holds 16 return addresses.
    StackOverflow,
    /// A `return` issued while the call stack is empty.
    StackUnderflow,
    /// An undecodable instruction word, together with the address it was
    /// fetched from.
    InvalidOpcode { opcode: u16, address: u16 },
}

} // verus!
