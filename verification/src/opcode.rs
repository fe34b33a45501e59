//! Pure decode helpers over the raw 16-bit instruction word.
//!
//! An opcode packs its operands into fixed bit fields: the top nibble
//! selects the instruction family, `nnn` is the low 12 bits (an address),
//! `x` and `y` are the second and third nibbles (register indices), `kk`
//! is the low byte (an immediate), and `n` is the low nibble (a count or
//! sub-operation selector). Everything here is a total function of the
//! instruction word alone; all machine mutation stays in the interpreter.

use vstd::prelude::*;

verus! {

/// The top nibble of an opcode: selects one of the 16 instruction families.
pub open spec fn op_family(op: u16) -> u16 {
    op / 0x1000
}

/// The low 12 bits of an opcode: the address operand `nnn`.
pub open spec fn op_addr(op: u16) -> u16 {
    op % 0x1000
}

/// The second nibble of an opcode: the register index `x`.
pub open spec fn op_x(op: u16) -> int {
    (op as int / 0x100) % 0x10
}

/// The third nibble of an opcode: the register index `y`.
pub open spec fn op_y(op: u16) -> int {
    (op as int / 0x10) % 0x10
}

/// The low byte of an opcode: the immediate operand `kk`.
pub open spec fn op_kk(op: u16) -> u8 {
    (op % 0x100) as u8
}

/// The low nibble of an opcode: the count operand `n`, also the
/// sub-operation selector of the arithmetic family.
pub open spec fn op_n(op: u16) -> u8 {
    (op % 0x10) as u8
}

/// The instruction family (top nibble) of an opcode, as a value in 0..16.
pub fn family(op: u16) -> (r: u16)
    ensures
        r == op_family(op),
        r < 0x10,
{
    op / 0x1000
}

/// The address operand `nnn` of an opcode.
pub fn address_operand(op: u16) -> (r: u16)
    ensures
        r == op_addr(op),
        r < 0x1000,
{
    op % 0x1000
}

/// The register index `x` of an opcode.
pub fn x_register(op: u16) -> (r: usize)
    ensures
        r == op_x(op),
        r < 16,
{
    ((op / 0x100) % 0x10) as usize
}

/// The register index `y` of an opcode.
pub fn y_register(op: u16) -> (r: usize)
    ensures
        r == op_y(op),
        r < 16,
{
    ((op / 0x10) % 0x10) as usize
}

/// The immediate byte `kk` of an opcode.
pub fn immediate_byte(op: u16) -> (r: u8)
    ensures
        r == op_kk(op),
{
    (op % 0x100) as u8
}

/// The low nibble `n` of an opcode.
pub fn low_nibble(op: u16) -> (r: u8)
    ensures
        r == op_n(op),
        r < 0x10,
{
    (op % 0x10) as u8
}

/// Shifts an opcode right by whole hex digits (4 bits per place).
pub fn right_shift(opcode: u16, hex_places: u8) -> (r: u16)
    ensures
        r == (if hex_places == 0 {
            opcode as int
        } else if hex_places == 1 {
            opcode as int / 0x10
        } else if hex_places == 2 {
            opcode as int / 0x100
        } else if hex_places == 3 {
            opcode as int / 0x1000
        } else {
            0int
        }),
{
    let mut i: u8 = 0;
    let mut shifted: u16 = opcode;
    while i < hex_places
        invariant
            i <= hex_places,
            shifted == (if i == 0 {
                opcode as int
            } else if i == 1 {
                opcode as int / 0x10
            } else if i == 2 {
                opcode as int / 0x100
            } else if i == 3 {
                opcode as int / 0x1000
            } else {
                0int
            }),
        decreases hex_places - i,
    {
        assert(shifted >> 4u16 == shifted as int / 0x10) by (bit_vector);
        assert(forall|v: u16| #[trigger] (v as int / 0x10) / 0x10 == v as int / 0x100) by (nonlinear_arith);
        assert(forall|v: u16| #[trigger] (v as int / 0x100) / 0x10 == v as int / 0x1000) by (nonlinear_arith);
        assert(forall|v: u16| v as int / 0x1000 < 0x10 ==> #[trigger] ((v as int / 0x1000) / 0x10) == 0) by (nonlinear_arith);
        shifted = shifted >> 4u16;
        i = i + 1;
    }
    shifted
}

/// Keeps only the low hex digits of an opcode: one leading digit is
/// dropped per place, so one place keeps `nnn`, two keep `kk`, three
/// keep `n`, and four drop the whole word.
pub fn left_pad(opcode: u16, hex_places: u8) -> (r: u16)
    requires
        1 <= hex_places <= 4,
    ensures
        r == (if hex_places == 1 {
            op_addr(opcode) as int
        } else if hex_places == 2 {
            op_kk(opcode) as int
        } else if hex_places == 3 {
            op_n(opcode) as int
        } else {
            0int
        }),
{
    let padding: u16 = right_shift(0x1000, hex_places - 1);
    opcode % padding
}

} // verus!
