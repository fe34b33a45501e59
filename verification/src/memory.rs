//! The flat 4096-byte address space, `0x000`..=`0xFFF`.
//!
//! The low region holds the sixteen built-in 5-byte glyph sprites for the
//! hexadecimal digits; program images are copied in at `0x200`. Every
//! access is bounds-checked, so a malformed operand surfaces as an
//! [`ChipError::OutOfBounds`] error instead of undefined behaviour.

use vstd::prelude::*;

use crate::error::ChipError;

verus! {

/// Total number of addressable bytes.
pub const MEMORY_SIZE: usize = 0x1000;

/// First address of the program region; loads copy the image here.
pub const PROGRAM_START: usize = 0x200;

/// Longest program image a load accepts.
pub const MAX_PROGRAM_LEN: usize = 0xFFF - 0x200;

/// The built-in glyph sprites: five bytes per hexadecimal digit, digit
/// `d` at offset `5 * d`, 80 bytes in all.
pub open spec fn sprite_table() -> Seq<u8> {
    seq![
        0xF0, 0x90, 0x90, 0x90, 0xF0, // 0
        0x20, 0x60, 0x20, 0x20, 0x70, // 1
        0xF0, 0x10, 0xF0, 0x80, 0xF0, // 2
        0xF0, 0x10, 0xF0, 0x10, 0xF0, // 3
        0x90, 0x90, 0xF0, 0x10, 0x10, // 4
        0xF0, 0x80, 0xF0, 0x10, 0xF0, // 5
        0xF0, 0x80, 0xF0, 0x90, 0xF0, // 6
        0xF0, 0x10, 0x20, 0x40, 0x40, // 7
        0xF0, 0x90, 0xF0, 0x90, 0xF0, // 8
        0xF0, 0x90, 0xF0, 0x10, 0xF0, // 9
        0xF0, 0x90, 0xF0, 0x90, 0x90, // A
        0xE0, 0x90, 0xE0, 0x90, 0xE0, // B
        0xF0, 0x80, 0x80, 0x80, 0xF0, // C
        0xE0, 0x90, 0x90, 0x90, 0xE0, // D
        0xF0, 0x80, 0xF0, 0x80, 0xF0, // E
        0xF0, 0x80, 0xF0, 0x80, 0x80, // F
    ]
}

/// Offset of digit `d`'s glyph sprite inside the low memory region.
pub open spec fn glyph_offset(d: int) -> int {
    5 * d
}

/// The 16-bit big-endian instruction word formed from `mem[addr]` and
/// `mem[addr + 1]`.
pub open spec fn opcode_at(mem: Seq<u8>, addr: int) -> u16 {
    (mem[addr] * 0x100 + mem[addr + 1]) as u16
}

/// The address space after loading program image `p` over memory `pre`:
/// the glyph table in the low 80 bytes, `p` at `0x200`, and every other
/// byte as it was.
pub open spec fn load_result(pre: Seq<u8>, p: Seq<u8>) -> Seq<u8> {
    Seq::new(
        MEMORY_SIZE as nat,
        |i: int|
            if i < 80 {
                sprite_table()[i]
            } else if PROGRAM_START <= i < PROGRAM_START + p.len() {
                p[i - PROGRAM_START]
            } else {
                pre[i]
            },
    )
}

/// The whole address space after loading program image `p` into a fresh
/// (all-zero) memory: glyphs first, zeroes up to `0x200`, then `p`, then
/// zeroes to the end.
pub open spec fn loaded_view(p: Seq<u8>) -> Seq<u8> {
    Seq::new(
        MEMORY_SIZE as nat,
        |i: int|
            if i < 80 {
                sprite_table()[i]
            } else if PROGRAM_START <= i < PROGRAM_START + p.len() {
                p[i - PROGRAM_START]
            } else {
                0u8
            },
    )
}

/// The flat byte store. Its view is the sequence of all 4096 bytes.
pub struct Memory {
    memory: Vec<u8>,
}

impl View for Memory {
    type V = Seq<u8>;

    closed spec fn view(&self) -> Seq<u8> {
        self.memory@
    }
}

impl Memory {
    /// The address space always holds exactly 4096 bytes.
    pub open spec fn wf(&self) -> bool {
        self@.len() == MEMORY_SIZE
    }

    /// A fresh, all-zero address space.
    pub fn new() -> (m: Memory)
        ensures
            m.wf(),
            m@.len() == MEMORY_SIZE,
            forall|i: int| 0 <= i < MEMORY_SIZE ==> m@[i] == 0u8,
    {
        Memory { memory: vec![0u8; MEMORY_SIZE] }
    }

    /// Writes the glyph sprites into the reserved low region, then copies
    /// `program` into memory starting at `0x200`. Rejects (and leaves
    /// memory untouched) any image that would extend past the program
    /// region, rather than silently truncating it.
    pub fn load(&mut self, program: &Vec<u8>) -> (r: Result<(), ChipError>)
        requires
            old(self).wf(),
        ensures
            final(self).wf(),
            program@.len() > MAX_PROGRAM_LEN ==> r == Err::<(), ChipError>(
                ChipError::ProgramTooLarge,
            ) && final(self)@ == old(self)@,
            program@.len() <= MAX_PROGRAM_LEN ==> r == Ok::<(), ChipError>(()) && final(self)@
                == load_result(old(self)@, program@),
    {
        if program.len() > MAX_PROGRAM_LEN {
            return Err(ChipError::ProgramTooLarge);
        }
        let ghost m0 = self.memory@;
        let sprites = sprite_bytes();
        let mut i: usize = 0;
        while i < 80
            invariant
                self.memory@.len() == MEMORY_SIZE,
                m0.len() == MEMORY_SIZE,
                i <= 80,
                sprites@ == sprite_table(),
                forall|j: int| 0 <= j < i ==> self.memory@[j] == sprite_table()[j],
                forall|j: int| i <= j < MEMORY_SIZE ==> self.memory@[j] == m0[j],
            decreases 80 - i,
        {
            self.memory[i] = sprites[i];
            i = i + 1;
        }
        let mut k: usize = 0;
        while k < program.len()
            invariant
                self.memory@.len() == MEMORY_SIZE,
                m0.len() == MEMORY_SIZE,
                k <= program@.len(),
                program@.len() <= MAX_PROGRAM_LEN,
                forall|j: int| 0 <= j < 80 ==> self.memory@[j] == sprite_table()[j],
                forall|j: int| 80 <= j < PROGRAM_START ==> self.memory@[j] == m0[j],
                forall|j: int|
                    0 <= j < k ==> self.memory@[PROGRAM_START + j] == program@[j],
                forall|j: int|
                    PROGRAM_START + k <= j < MEMORY_SIZE ==> self.memory@[j] == m0[j],
            decreases program@.len() - k,
        {
            self.memory[PROGRAM_START + k] = program[k];
            k = k + 1;
        }
        proof {
            assert(self.memory@ =~= load_result(m0, program@));
        }
        Ok(())
    }

    /// The big-endian instruction word at `address`. The second byte
    /// lives at `address + 1`, so any fetch above `0xFFE` is out of
    /// bounds.
    pub fn get_opcode(&self, address: u16) -> (r: Result<u16, ChipError>)
        requires
            self.wf(),
        ensures
            address <= 0xFFE ==> r == Ok::<u16, ChipError>(opcode_at(self@, address as int)),
            address > 0xFFE ==> r == Err::<u16, ChipError>(ChipError::OutOfBounds),
    {
        if address > 0xFFE {
            return Err(ChipError::OutOfBounds);
        }
        let big_end: u16 = (self.memory[address as usize] as u16) * 0x100;
        let little_end: u16 = self.memory[address as usize + 1] as u16;
        Ok(big_end + little_end)
    }

    /// Bounds-checked bulk read of `number_of_bytes` bytes starting at
    /// `starting_index`, used for sprite fetch and register-restore
    /// instructions.
    pub fn get_bytes(&self, starting_index: u16, number_of_bytes: u8) -> (r: Result<
        Vec<u8>,
        ChipError,
    >)
        requires
            self.wf(),
        ensures
            starting_index + number_of_bytes <= MEMORY_SIZE ==> {
                &&& r matches Ok(bytes)
                &&& bytes@ == self@.subrange(
                    starting_index as int,
                    starting_index + number_of_bytes,
                )
            },
            starting_index + number_of_bytes > MEMORY_SIZE ==> r == Err::<Vec<u8>, ChipError>(
                ChipError::OutOfBounds,
            ),
    {
        if starting_index as usize > MEMORY_SIZE
            || number_of_bytes as usize > MEMORY_SIZE - starting_index as usize {
            return Err(ChipError::OutOfBounds);
        }
        let mut bytes: Vec<u8> = Vec::new();
        let mut i: usize = 0;
        while i < number_of_bytes as usize
            invariant
                self.wf(),
                i <= number_of_bytes,
                starting_index + number_of_bytes <= MEMORY_SIZE,
                bytes@ == self@.subrange(starting_index as int, starting_index + i),
            decreases number_of_bytes - i,
        {
            bytes.push(self.memory[starting_index as usize + i]);
            proof {
                assert(bytes@ =~= self@.subrange(starting_index as int, starting_index + i + 1));
            }
            i = i + 1;
        }
        Ok(bytes)
    }

    /// Bounds-checked bulk write of `bytes` starting at `starting_index`,
    /// used for binary-coded-decimal and register-spill instructions.
    pub fn set_bytes(&mut self, starting_index: usize, bytes: Vec<u8>) -> (r: Result<
        (),
        ChipError,
    >)
        requires
            old(self).wf(),
        ensures
            final(self).wf(),
            starting_index + bytes@.len() <= MEMORY_SIZE ==> {
                &&& r == Ok::<(), ChipError>(())
                &&& forall|j: int|
                    0 <= j < bytes@.len() ==> final(self)@[starting_index + j] == bytes@[j]
                &&& forall|j: int|
                    (0 <= j < starting_index || starting_index + bytes@.len() <= j < MEMORY_SIZE)
                        ==> final(self)@[j] == old(self)@[j]
            },
            starting_index + bytes@.len() > MEMORY_SIZE ==> r == Err::<(), ChipError>(
                ChipError::OutOfBounds,
            ) && final(self)@ == old(self)@,
    {
        if bytes.len() > MEMORY_SIZE - starting_index.min(MEMORY_SIZE)
            || starting_index > MEMORY_SIZE {
            return Err(ChipError::OutOfBounds);
        }
        let ghost m0 = self.memory@;
        let mut i: usize = 0;
        while i < bytes.len()
            invariant
                self.memory@.len() == MEMORY_SIZE,
                i <= bytes@.len(),
                starting_index + bytes@.len() <= MEMORY_SIZE,
                forall|j: int| 0 <= j < i ==> self.memory@[starting_index + j] == bytes@[j],
                forall|j: int|
                    (0 <= j < starting_index || starting_index + i <= j < MEMORY_SIZE)
                        ==> self.memory@[j] == m0[j],
            decreases bytes@.len() - i,
        {
            self.memory[starting_index + i] = bytes[i];
            i = i + 1;
        }
        Ok(())
    }

    /// Writes a single byte at `location`, bounds-checked.
    pub fn write(&mut self, location: u16, byte: u8) -> (r: Result<(), ChipError>)
        requires
            old(self).wf(),
        ensures
            final(self).wf(),
            location < MEMORY_SIZE ==> r == Ok::<(), ChipError>(()) && final(self)@ == old(self)@.update(
                location as int,
                byte,
            ),
            location >= MEMORY_SIZE ==> r == Err::<(), ChipError>(ChipError::OutOfBounds)
                && final(self)@ == old(self)@,
    {
        if location as usize >= MEMORY_SIZE {
            return Err(ChipError::OutOfBounds);
        }
        self.memory[location as usize] = byte;
        Ok(())
    }

    /// Offset of the built-in glyph sprite for hexadecimal digit
    /// `hex_digit`; values outside `0`..=`15` name no glyph.
    pub fn get_hex_sprite_index(&self, hex_digit: u8) -> (r: Result<u8, ChipError>)
        ensures
            hex_digit <= 15 ==> r == Ok::<u8, ChipError>(glyph_offset(hex_digit as int) as u8),
            hex_digit > 15 ==> r == Err::<u8, ChipError>(ChipError::InvalidDigit),
    {
        if hex_digit > 15 {
            return Err(ChipError::InvalidDigit);
        }
        Ok(5 * hex_digit)
    }
}

/// The glyph sprites as executable bytes, exactly the reference table.
fn sprite_bytes() -> (r: Vec<u8>)
    ensures
        r@ == sprite_table(),
{
    let r: Vec<u8> = vec![
        0xF0, 0x90, 0x90, 0x90, 0xF0, 0x20, 0x60, 0x20, 0x20, 0x70, 0xF0, 0x10, 0xF0, 0x80, 0xF0,
        0xF0, 0x10, 0xF0, 0x10, 0xF0, 0x90, 0x90, 0xF0, 0x10, 0x10, 0xF0, 0x80, 0xF0, 0x10, 0xF0,
        0xF0, 0x80, 0xF0, 0x90, 0xF0, 0xF0, 0x10, 0x20, 0x40, 0x40, 0xF0, 0x90, 0xF0, 0x90, 0xF0,
        0xF0, 0x90, 0xF0, 0x10, 0xF0, 0xF0, 0x90, 0xF0, 0x90, 0x90, 0xE0, 0x90, 0xE0, 0x90, 0xE0,
        0xF0, 0x80, 0x80, 0x80, 0xF0, 0xE0, 0x90, 0x90, 0x90, 0xE0, 0xF0, 0x80, 0xF0, 0x80, 0xF0,
        0xF0, 0x80, 0xF0, 0x80, 0x80,
    ];
    proof {
        assert(r@ =~= sprite_table());
    }
    r
}

/// The sixteen glyph offsets are pairwise distinct, and each glyph's
/// five bytes lie inside the reserved 80-byte region.
pub proof fn lemma_glyph_addresses_distinct(d1: int, d2: int)
    requires
        0 <= d1 < 16,
        0 <= d2 < 16,
        d1 != d2,
    ensures
        glyph_offset(d1) != glyph_offset(d2),
        0 <= glyph_offset(d1),
        glyph_offset(d1) + 5 <= 80,
{
}

/// After a load into fresh memory, the five bytes at digit `d`'s glyph
/// offset are exactly the reference sprite rows for `d`.
pub proof fn lemma_glyph_bytes_loaded(p: Seq<u8>, d: int, j: int)
    requires
        p.len() <= MAX_PROGRAM_LEN,
        0 <= d < 16,
        0 <= j < 5,
    ensures
        loaded_view(p)[glyph_offset(d) + j] == sprite_table()[5 * d + j],
{
}

/// Loading any program that fits leaves that exact image readable at
/// `0x200`, and the reserved low region holds the glyph table.
pub proof fn lemma_load_preserves_program(pre: Seq<u8>, p: Seq<u8>)
    requires
        pre.len() == MEMORY_SIZE,
        p.len() <= MAX_PROGRAM_LEN,
    ensures
        forall|i: int| 0 <= i < p.len() ==> load_result(pre, p)[PROGRAM_START + i] == p[i],
        forall|i: int| 0 <= i < 80 ==> load_result(pre, p)[i] == sprite_table()[i],
{
}

/// Loading into fresh (all-zero) memory gives exactly the fresh layout:
/// glyphs, zeroes, the program image, zeroes.
pub proof fn lemma_load_fresh(pre: Seq<u8>, p: Seq<u8>)
    requires
        pre.len() == MEMORY_SIZE,
        forall|i: int| 0 <= i < MEMORY_SIZE ==> pre[i] == 0u8,
    ensures
        load_result(pre, p) =~= loaded_view(p),
{
}

} // verus!
