//! The interpreter: owns one instance of every component and runs the
//! fetch-decode-execute-tick cycle over them.
//!
//! The host drives it one cycle at a time through [`ChipEight::cycle`]
//! (or a bounded burst through [`ChipEight::run`]), feeds it key events
//! through [`ChipEight::deliver_key_event`], and reads the framebuffer
//! and sound timer back. Every cycle is proved to implement
//! [`spec_cycle`], the mathematical model of the machine.

use vstd::prelude::*;

use crate::error::ChipError;
use crate::graphics::Graphics;
use crate::keypad::{Keypad, Position};
use crate::machine::{
    init_machine_view, spec_cycle, spec_end_op, spec_execute, spec_key_event, spec_keyboard_op,
    spec_register_op, spec_run, spec_util_op, MachineView,
};
use crate::memory::{load_result, Memory, MAX_PROGRAM_LEN};
use crate::processor::Processor;
use crate::sound::Sound;

verus! {

/// One whole machine. Its view is a [`MachineView`].
pub struct ChipEight {
    memory: Memory,
    graphics: Graphics,
    keypad: Keypad,
    sound: Sound,
    processor: Processor,
}

impl View for ChipEight {
    type V = MachineView;

    closed spec fn view(&self) -> MachineView {
        MachineView {
            memory: self.memory@,
            display: self.graphics@,
            keys: self.keypad@,
            sound_timer: self.sound@,
            cpu: self.processor@,
        }
    }
}

impl ChipEight {
    /// Every component is well-formed.
    pub closed spec fn wf(&self) -> bool {
        &&& self.memory.wf()
        &&& self.graphics.wf()
        &&& self.keypad.wf()
        &&& self.processor.wf()
    }

    /// A fresh machine: zeroed memory, cleared framebuffer, all keys
    /// up, timers stopped, program counter at `0x200`.
    pub fn new() -> (m: ChipEight)
        ensures
            m.wf(),
            m@ == init_machine_view(),
    {
        let m = ChipEight {
            memory: Memory::new(),
            graphics: Graphics::new(),
            keypad: Keypad::new(),
            sound: Sound::new(),
            processor: Processor::new(),
        };
        proof {
            assert(m@.memory =~= init_machine_view().memory);
            assert(m@.display =~= init_machine_view().display);
            assert(m@.keys =~= init_machine_view().keys);
            assert(m@ =~= init_machine_view());
        }
        m
    }

    /// Loads a program image: glyph sprites into the reserved region,
    /// the image at `0x200`. An image longer than the program region is
    /// rejected whole, leaving the machine untouched.
    pub fn load(&mut self, rom: &Vec<u8>) -> (r: Result<(), ChipError>)
        requires
            old(self).wf(),
        ensures
            final(self).wf(),
            rom@.len() > MAX_PROGRAM_LEN ==> r == Err::<(), ChipError>(ChipError::ProgramTooLarge)
                && final(self)@ == old(self)@,
            rom@.len() <= MAX_PROGRAM_LEN ==> r == Ok::<(), ChipError>(()) && final(self)@
                == (MachineView { memory: load_result(old(self)@.memory, rom@), ..old(self)@ }),
    {
        self.memory.load(rom)
    }

    /// Runs one machine cycle: while a key-wait is armed only the
    /// timers tick; otherwise fetch, advance the program counter past
    /// the instruction, execute it, and tick the timers. An error stops
    /// the cycle and reports it.
    pub fn cycle(&mut self) -> (r: Result<(), ChipError>)
        requires
            old(self).wf(),
        ensures
            final(self).wf(),
            final(self)@ == spec_cycle(old(self)@).0,
            match spec_cycle(old(self)@).1 {
                Some(e) => r == Err::<(), ChipError>(e),
                None => r == Ok::<(), ChipError>(()),
            },
    {
        proof {
            reveal(crate::machine::spec_cycle);
        }
        if self.processor.is_waiting() {
            self.processor.tick();
            self.sound.tick();
            return Ok(());
        }
        let pc = self.processor.get_program_counter();
        let op = match self.memory.get_opcode(pc) {
            Ok(op) => op,
            Err(e) => {
                return Err(e);
            },
        };
        self.processor.set_opcode(op);
        self.processor.increment_program_counter();
        match self.execute(pc) {
            Ok(()) => {},
            Err(e) => {
                return Err(e);
            },
        }
        self.processor.tick();
        self.sound.tick();
        Ok(())
    }

    /// Loads a program image and runs up to `cycles` machine cycles,
    /// stopping at the first error.
    #[verifier::rlimit(60)]
    pub fn run(&mut self, rom: &Vec<u8>, cycles: usize) -> (r: Result<(), ChipError>)
        requires
            old(self).wf(),
        ensures
            final(self).wf(),
            rom@.len() > MAX_PROGRAM_LEN ==> r == Err::<(), ChipError>(ChipError::ProgramTooLarge)
                && final(self)@ == old(self)@,
            rom@.len() <= MAX_PROGRAM_LEN ==> ({
                let outcome = spec_run(
                    (MachineView { memory: load_result(old(self)@.memory, rom@), ..old(self)@ }),
                    cycles as nat,
                );
                final(self)@ == outcome.0 && (match outcome.1 {
                    Some(e) => r == Err::<(), ChipError>(e),
                    None => r == Ok::<(), ChipError>(()),
                })
            }),
    {
        match self.load(rom) {
            Ok(()) => {},
            Err(e) => {
                return Err(e);
            },
        }
        let ghost start = self@;
        let mut i: usize = 0;
        while i < cycles
            invariant
                self.wf(),
                i <= cycles,
                rom@.len() <= MAX_PROGRAM_LEN,
                start == (MachineView {
                    memory: load_result(old(self)@.memory, rom@),
                    ..old(self)@
                }),
                spec_run(start, i as nat) == (self@, None::<ChipError>),
            decreases cycles - i,
        {
            let ghost pre = self@;
            match self.cycle() {
                Ok(()) => {
                    proof {
                        crate::machine::lemma_run_step(start, pre, self@, i as nat);
                    }
                },
                Err(e) => {
                    proof {
                        crate::machine::lemma_run_stop(
                            start,
                            pre,
                            self@,
                            i as nat,
                            cycles as nat,
                            e,
                        );
                    }
                    return Err(e);
                },
            }
            i = i + 1;
        }
        Ok(())
    }

    /// Delivers a host key event. A press delivered while a key-wait is
    /// armed writes the key's index into the waiting register and
    /// resumes execution.
    pub fn deliver_key_event(&mut self, index: u8, pressed: bool)
        requires
            old(self).wf(),
            index < 16,
        ensures
            final(self).wf(),
            final(self)@ == spec_key_event(old(self)@, index, pressed),
    {
        self.keypad.set_key(index, if pressed {
            Position::DOWN
        } else {
            Position::UP
        });
        if pressed && self.processor.is_waiting() {
            self.processor.end_wait(index);
        }
    }

    /// The framebuffer as a fresh row-major vector of booleans.
    pub fn framebuffer_snapshot(&self) -> (r: Vec<bool>)
        requires
            self.wf(),
        ensures
            r@ == self@.display,
    {
        self.graphics.snapshot()
    }

    /// The sound timer counter; the host sounds a tone while nonzero.
    pub fn sound_timer_value(&self) -> (r: u8)
        ensures
            r == self@.sound_timer,
    {
        self.sound.get_sound_timer()
    }

    /// Whether the machine is suspended on the blocking key-wait.
    pub fn is_awaiting_key(&self) -> (r: bool)
        ensures
            r == (self@.cpu.state is AwaitingKey),
    {
        self.processor.is_waiting()
    }

    /// The program counter.
    pub fn program_counter(&self) -> (r: u16)
        ensures
            r == self@.cpu.program_counter,
    {
        self.processor.get_program_counter()
    }

    /// The index register.
    pub fn index_register(&self) -> (r: u16)
        ensures
            r == self@.cpu.index_register,
    {
        self.processor.get_index_register()
    }

    /// The value of general register `register_index`.
    pub fn register_value(&self, register_index: usize) -> (r: u8)
        requires
            self.wf(),
            register_index < 16,
        ensures
            r == self@.cpu.registers[register_index as int],
    {
        self.processor.get_register_value(register_index)
    }

    /// The delay timer counter.
    pub fn delay_timer(&self) -> (r: u8)
        ensures
            r == self@.cpu.delay_timer,
    {
        self.processor.get_delay_timer()
    }

    /// Executes the latched instruction, fetched at `fetch_address`.
    fn execute(&mut self, fetch_address: u16) -> (r: Result<(), ChipError>)
        requires
            old(self).wf(),
            old(self)@.cpu.program_counter + 2 <= u16::MAX,
        ensures
            final(self).wf(),
            final(self)@ == spec_execute(old(self)@, fetch_address).0,
            match spec_execute(old(self)@, fetch_address).1 {
                Some(e) => r == Err::<(), ChipError>(e),
                None => r == Ok::<(), ChipError>(()),
            },
    {
        proof {
            reveal(crate::machine::spec_execute);
        }
        let op = self.processor.get_opcode();
        match crate::opcode::family(op) {
            0x0 => self.parse_end_function(fetch_address),
            0x1 => {
                self.processor.jump();
                Ok(())
            },
            0x2 => self.processor.call(),
            0x3 => {
                self.processor.skip_on_equal();
                Ok(())
            },
            0x4 => {
                self.processor.skip_on_not_equal();
                Ok(())
            },
            0x5 => {
                if self.processor.get_opcode_nibble() != 0 {
                    return Err(ChipError::InvalidOpcode { opcode: op, address: fetch_address });
                }
                self.processor.skip_if_registers();
                Ok(())
            },
            0x6 => {
                self.processor.load_into_register();
                Ok(())
            },
            0x7 => {
                self.processor.add_to_register();
                Ok(())
            },
            0x8 => self.parse_register_operation(fetch_address),
            0x9 => {
                if self.processor.get_opcode_nibble() != 0 {
                    return Err(ChipError::InvalidOpcode { opcode: op, address: fetch_address });
                }
                self.processor.skip_if_not_regsiters();
                Ok(())
            },
            0xA => {
                self.processor.load_into_index_register();
                Ok(())
            },
            0xB => {
                self.processor.jump_plus_v0();
                Ok(())
            },
            0xC => {
                self.processor.assign_random();
                Ok(())
            },
            0xD => self.draw_sprite(fetch_address),
            0xE => self.parse_keyboard_operation(fetch_address),
            _ => self.parse_util_function(fetch_address),
        }
    }

    /// The sprite-draw instruction: XORs `n` rows fetched at the index
    /// register onto the framebuffer at the position named by registers
    /// `x` and `y`, and reports any erased pixel in the flag register.
    fn draw_sprite(&mut self, fetch_address: u16) -> (r: Result<(), ChipError>)
        requires
            old(self).wf(),
            crate::opcode::op_family(old(self)@.cpu.opcode) == 0xD,
        ensures
            final(self).wf(),
            final(self)@ == spec_execute(old(self)@, fetch_address).0,
            match spec_execute(old(self)@, fetch_address).1 {
                Some(e) => r == Err::<(), ChipError>(e),
                None => r == Ok::<(), ChipError>(()),
            },
    {
        proof {
            reveal(crate::machine::spec_execute);
        }
        let (x, y) = self.processor.get_opcode_register_values();
        let n = self.processor.get_opcode_nibble();
        let starting_index = self.processor.get_index_register();
        let sprite = match self.memory.get_bytes(starting_index, n) {
            Ok(sprite) => sprite,
            Err(e) => {
                return Err(e);
            },
        };
        let x_coordinate = self.processor.get_register_value(x);
        let y_coordinate = self.processor.get_register_value(y);
        let collision = self.graphics.draw(sprite, x_coordinate as usize, y_coordinate as usize);
        self.processor.set_register_value(15, if collision {
            1
        } else {
            0
        });
        Ok(())
    }

    /// The `0x0` family: clear the screen or return from a subroutine.
    fn parse_end_function(&mut self, fetch_address: u16) -> (r: Result<(), ChipError>)
        requires
            old(self).wf(),
        ensures
            final(self).wf(),
            final(self)@ == spec_end_op(old(self)@, fetch_address).0,
            match spec_end_op(old(self)@, fetch_address).1 {
                Some(e) => r == Err::<(), ChipError>(e),
                None => r == Ok::<(), ChipError>(()),
            },
    {
        let op = self.processor.get_opcode();
        if op == 0x00E0 {
            self.graphics.clear();
            proof {
                assert(self@.display =~= Seq::new(old(self)@.display.len(), |i: int| false));
                assert(self@ =~= spec_end_op(old(self)@, fetch_address).0);
            }
            Ok(())
        } else if op == 0x00EE {
            self.processor.subroutine_return()
        } else {
            Err(ChipError::InvalidOpcode { opcode: op, address: fetch_address })
        }
    }

    /// The `0x8` family: moves, bitwise operations, arithmetic with
    /// flags, and shifts, selected by the low nibble.
    fn parse_register_operation(&mut self, fetch_address: u16) -> (r: Result<(), ChipError>)
        requires
            old(self).wf(),
        ensures
            final(self).wf(),
            final(self)@ == spec_register_op(old(self)@, fetch_address).0,
            match spec_register_op(old(self)@, fetch_address).1 {
                Some(e) => r == Err::<(), ChipError>(e),
                None => r == Ok::<(), ChipError>(()),
            },
    {
        let op = self.processor.get_opcode();
        match self.processor.get_opcode_nibble() {
            0x0 => {
                self.processor.copy_register();
                Ok(())
            },
            0x1 => {
                self.processor.or_registers();
                Ok(())
            },
            0x2 => {
                self.processor.and_registers();
                Ok(())
            },
            0x3 => {
                self.processor.xor_registers();
                Ok(())
            },
            0x4 => {
                self.processor.add_registers();
                Ok(())
            },
            0x5 => {
                self.processor.sub_registers();
                Ok(())
            },
            0x6 => {
                self.processor.div_by_two();
                Ok(())
            },
            0x7 => {
                self.processor.sub_reverse_registers();
                Ok(())
            },
            0xE => {
                self.processor.multiply_by_two();
                Ok(())
            },
            _ => Err(ChipError::InvalidOpcode { opcode: op, address: fetch_address }),
        }
    }

    /// The `0xE` family: skip on the state of the key named by register
    /// `x`, taken modulo 16.
    fn parse_keyboard_operation(&mut self, fetch_address: u16) -> (r: Result<(), ChipError>)
        requires
            old(self).wf(),
            old(self)@.cpu.program_counter + 2 <= u16::MAX,
        ensures
            final(self).wf(),
            final(self)@ == spec_keyboard_op(old(self)@, fetch_address).0,
            match spec_keyboard_op(old(self)@, fetch_address).1 {
                Some(e) => r == Err::<(), ChipError>(e),
                None => r == Ok::<(), ChipError>(()),
            },
    {
        let op = self.processor.get_opcode();
        let subopcode = crate::opcode::immediate_byte(op);
        if subopcode != 0x9E && subopcode != 0xA1 {
            return Err(ChipError::InvalidOpcode { opcode: op, address: fetch_address });
        }
        let x = crate::opcode::x_register(op);
        let key = self.processor.get_register_value(x) % 16;
        let position = self.keypad.get_key(key);
        if (subopcode == 0x9E && position == Position::DOWN) || (subopcode == 0xA1 && position
            == Position::UP) {
            self.processor.increment_program_counter();
        }
        Ok(())
    }

    /// The `0xF` family: timer transfers, the blocking key-wait, index
    /// arithmetic, glyph lookup, binary-coded-decimal decomposition,
    /// and bulk register/memory transfers, selected by the low byte.
    fn parse_util_function(&mut self, fetch_address: u16) -> (r: Result<(), ChipError>)
        requires
            old(self).wf(),
        ensures
            final(self).wf(),
            final(self)@ == spec_util_op(old(self)@, fetch_address).0,
            match spec_util_op(old(self)@, fetch_address).1 {
                Some(e) => r == Err::<(), ChipError>(e),
                None => r == Ok::<(), ChipError>(()),
            },
    {
        let op = self.processor.get_opcode();
        let x = crate::opcode::x_register(op);
        match crate::opcode::immediate_byte(op) {
            0x07 => {
                self.processor.set_delay_timer_to_register(x);
                Ok(())
            },
            0x0A => {
                self.processor.wait(x);
                Ok(())
            },
            0x15 => {
                self.processor.set_delay_timer(x);
                Ok(())
            },
            0x18 => {
                let register_value = self.processor.get_register_value(x);
                self.sound.set_sound_timer(register_value);
                Ok(())
            },
            0x1E => {
                self.processor.add_register_to_i(x);
                Ok(())
            },
            0x29 => {
                let register_value = self.processor.get_register_value(x);
                match self.memory.get_hex_sprite_index(register_value) {
                    Ok(offset) => {
                        self.processor.set_index_register(offset as u16);
                        Ok(())
                    },
                    Err(e) => Err(e),
                }
            },
            0x33 => {
                let register_value = self.processor.get_register_value(x);
                let starting_index = self.processor.get_index_register();
                let bcd: Vec<u8> = vec![
                    register_value / 100,
                    (register_value / 10) % 10,
                    register_value % 10,
                ];
                let ghost bcd_view = bcd@;
                match self.memory.set_bytes(starting_index as usize, bcd) {
                    Ok(()) => {
                        proof {
                            assert(self@.memory =~= crate::machine::write_range(
                                old(self)@.memory,
                                starting_index as int,
                                bcd_view,
                            ));
                            assert(self@ =~= spec_util_op(old(self)@, fetch_address).0);
                        }
                        Ok(())
                    },
                    Err(e) => Err(e),
                }
            },
            0x55 => {
                let bytes = self.processor.get_values_upto_register(x);
                let starting_index = self.processor.get_index_register();
                let ghost bytes_view = bytes@;
                match self.memory.set_bytes(starting_index as usize, bytes) {
                    Ok(()) => {
                        proof {
                            assert(self@.memory =~= crate::machine::write_range(
                                old(self)@.memory,
                                starting_index as int,
                                bytes_view,
                            ));
                            assert(self@ =~= spec_util_op(old(self)@, fetch_address).0);
                        }
                        Ok(())
                    },
                    Err(e) => Err(e),
                }
            },
            0x65 => {
                let starting_index = self.processor.get_index_register();
                match self.memory.get_bytes(starting_index, (x + 1) as u8) {
                    Ok(bytes) => {
                        self.processor.set_values_upto_register(bytes);
                        proof {
                            assert(self@.cpu.registers =~= spec_util_op(
                                old(self)@,
                                fetch_address,
                            ).0.cpu.registers);
                            assert(self@ =~= spec_util_op(old(self)@, fetch_address).0);
                        }
                        Ok(())
                    },
                    Err(e) => Err(e),
                }
            },
            _ => Err(ChipError::InvalidOpcode { opcode: op, address: fetch_address }),
        }
    }
}

impl Default for ChipEight {
    /// The same fresh machine [`ChipEight::new`] builds.
    fn default() -> (m: Self)
        ensures
            m.wf(),
            m@ == init_machine_view(),
    {
        ChipEight::new()
    }
}

} // verus!
