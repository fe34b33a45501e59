//! The register file and control state of the machine.
//!
//! Sixteen 8-bit general registers (register 15 doubles as the flag
//! output of arithmetic and shift instructions), a 16-bit index
//! register, the program counter, a call stack of depth 16, the delay
//! timer, the running/awaiting-key state machine, and the state of the
//! pseudo-random generator behind the random-masked assignment
//! instruction. Each instruction's effect on this state is a method
//! with an exact contract; the current instruction word is held in
//! `opcode` and decoded through the helpers in [`crate::opcode`].

use vstd::prelude::*;

use crate::error::ChipError;
use crate::opcode::{op_addr, op_kk, op_n, op_x, op_y};

verus! {

/// How many call frames the stack can hold.
pub const STACK_DEPTH: usize = 16;

/// Every program starts here.
pub const PC_START: u16 = 0x200;

/// The seed the pseudo-random generator starts from.
pub const RNG_SEED: u16 = 0xACE1;

/// Whether the machine is executing instructions or suspended on the
/// blocking key-wait instruction.
#[derive(Clone, Copy, Debug, PartialEq, Eq, Structural)]
pub enum MachineState {
    /// Each cycle fetches, decodes and executes one instruction.
    Running,
    /// A key-wait is armed: cycles only tick the timers until a key
    /// press is delivered.
    AwaitingKey,
}

/// The abstract state of the register file, as contracts speak of it.
#[verifier::ext_equal]
pub struct ProcessorView {
    /// The instruction word currently latched for execution.
    pub opcode: u16,
    /// The sixteen general registers, register 15 being the flag register.
    pub registers: Seq<u8>,
    /// The 16-bit index register.
    pub index_register: u16,
    /// The program counter.
    pub program_counter: u16,
    /// The call stack, oldest return address first.
    pub stack: Seq<u16>,
    /// The delay timer counter.
    pub delay_timer: u8,
    /// Running, or suspended on a key-wait.
    pub state: MachineState,
    /// The register a resolved key-wait will fill.
    pub key_register: u8,
    /// The pseudo-random generator state.
    pub rng: u16,
}

/// The register file right after power-on.
pub open spec fn init_processor_view() -> ProcessorView {
    ProcessorView {
        opcode: 0,
        registers: Seq::new(16, |i: int| 0u8),
        index_register: 0,
        program_counter: PC_START,
        stack: Seq::empty(),
        delay_timer: 0,
        state: MachineState::Running,
        key_register: 0,
        rng: RNG_SEED,
    }
}

/// One step of the pseudo-random generator: a 16-bit truncated linear
/// congruence.
pub open spec fn rng_step(s: u16) -> u16 {
    ((s as int * 75 + 74) % 0x10000) as u16
}

/// The byte the generator hands the random-masked assignment, taken
/// from the freshly stepped state.
pub open spec fn rng_byte(s: u16) -> u8 {
    (rng_step(s) % 0x100) as u8
}

/// A call: pushes the program counter and jumps to the opcode's address
/// operand, or reports overflow on a full stack.
pub open spec fn spec_call(v: ProcessorView) -> Result<ProcessorView, ChipError> {
    if v.stack.len() >= STACK_DEPTH {
        Err(ChipError::StackOverflow)
    } else {
        Ok(
            (ProcessorView {
                stack: v.stack.push(v.program_counter),
                program_counter: op_addr(v.opcode),
                ..v
            }),
        )
    }
}

/// A return: pops the program counter from the stack, or reports
/// underflow on an empty stack.
pub open spec fn spec_return(v: ProcessorView) -> Result<ProcessorView, ChipError> {
    if v.stack.len() == 0 {
        Err(ChipError::StackUnderflow)
    } else {
        Ok(
            (ProcessorView {
                program_counter: v.stack.last(),
                stack: v.stack.drop_last(),
                ..v
            }),
        )
    }
}

/// The register file and control state. Its view is a [`ProcessorView`].
pub struct Processor {
    opcode: u16,
    registers: Vec<u8>,
    index_register: u16,
    program_counter: u16,
    stack: Vec<u16>,
    delay_timer: u8,
    state: MachineState,
    key_register: u8,
    rng: u16,
}

impl View for Processor {
    type V = ProcessorView;

    closed spec fn view(&self) -> ProcessorView {
        ProcessorView {
            opcode: self.opcode,
            registers: self.registers@,
            index_register: self.index_register,
            program_counter: self.program_counter,
            stack: self.stack@,
            delay_timer: self.delay_timer,
            state: self.state,
            key_register: self.key_register,
            rng: self.rng,
        }
    }
}

impl Processor {
    /// Sixteen registers, a stack within its fixed depth, and a wait
    /// target that names a real register.
    pub open spec fn wf(&self) -> bool {
        &&& self@.registers.len() == 16
        &&& self@.stack.len() <= STACK_DEPTH
        &&& self@.key_register < 16
    }

    /// A fresh register file: all registers zero, program counter at
    /// `0x200`, empty stack, timers stopped, running.
    pub fn new() -> (p: Processor)
        ensures
            p.wf(),
            p@ == init_processor_view(),
    {
        let mut registers: Vec<u8> = Vec::new();
        let mut i: usize = 0;
        while i < 16
            invariant
                i <= 16,
                registers@.len() == i,
                forall|j: int| 0 <= j < i ==> registers@[j] == 0u8,
            decreases 16 - i,
        {
            registers.push(0);
            i = i + 1;
        }
        let p = Processor {
            opcode: 0,
            registers,
            index_register: 0,
            program_counter: PC_START,
            stack: Vec::new(),
            delay_timer: 0,
            state: MachineState::Running,
            key_register: 0,
            rng: RNG_SEED,
        };
        proof {
            assert(p@.registers =~= init_processor_view().registers);
            assert(p@.stack =~= init_processor_view().stack);
            assert(p@ =~= init_processor_view());
        }
        p
    }

    /// The latched instruction word.
    pub fn get_opcode(&self) -> (r: u16)
        ensures
            r == self@.opcode,
    {
        self.opcode
    }

    /// Latches the instruction word the next execute step will decode.
    pub fn set_opcode(&mut self, opcode: u16)
        ensures
            final(self)@ == (ProcessorView { opcode, ..old(self)@ }),
    {
        self.opcode = opcode;
    }

    /// The value of general register `register_index`.
    pub fn get_register_value(&self, register_index: usize) -> (r: u8)
        requires
            self.wf(),
            register_index < 16,
        ensures
            r == self@.registers[register_index as int],
    {
        self.registers[register_index]
    }

    /// The index register.
    pub fn get_index_register(&self) -> (r: u16)
        ensures
            r == self@.index_register,
    {
        self.index_register
    }

    /// The program counter.
    pub fn get_program_counter(&self) -> (r: u16)
        ensures
            r == self@.program_counter,
    {
        self.program_counter
    }

    /// The delay timer counter.
    pub fn get_delay_timer(&self) -> (r: u8)
        ensures
            r == self@.delay_timer,
    {
        self.delay_timer
    }

    /// Whether the machine is suspended on an armed key-wait.
    pub fn is_waiting(&self) -> (r: bool)
        ensures
            r == (self@.state is AwaitingKey),
    {
        match self.state {
            MachineState::AwaitingKey => true,
            MachineState::Running => false,
        }
    }

    /// Arms the key-wait: records the register the next key press must
    /// fill and suspends execution.
    pub fn wait(&mut self, register_index: usize)
        requires
            register_index < 16,
        ensures
            final(self)@ == (ProcessorView {
                state: MachineState::AwaitingKey,
                key_register: register_index as u8,
                ..old(self)@
            }),
    {
        self.key_register = register_index as u8;
        self.state = MachineState::AwaitingKey;
    }

    /// Resolves an armed key-wait: writes the pressed key's index into
    /// the recorded register and resumes execution.
    pub fn end_wait(&mut self, key: u8)
        requires
            old(self).wf(),
            key < 16,
        ensures
            final(self).wf(),
            final(self)@ == (ProcessorView {
                registers: old(self)@.registers.update(old(self)@.key_register as int, key),
                state: MachineState::Running,
                ..old(self)@
            }),
    {
        let target = self.key_register as usize;
        self.registers[target] = key;
        self.state = MachineState::Running;
    }

    /// Moves the program counter past one 2-byte instruction.
    pub(crate) fn increment_program_counter(&mut self)
        requires
            old(self)@.program_counter + 2 <= u16::MAX,
        ensures
            final(self)@ == (ProcessorView {
                program_counter: (old(self)@.program_counter + 2) as u16,
                ..old(self)@
            }),
    {
        self.program_counter = self.program_counter + 2;
    }

    /// The values of registers `0..=register_index`, for the bulk
    /// register-spill instruction.
    pub fn get_values_upto_register(&self, register_index: usize) -> (r: Vec<u8>)
        requires
            self.wf(),
            register_index < 16,
        ensures
            r@ == self@.registers.subrange(0, register_index + 1),
    {
        let mut r: Vec<u8> = Vec::new();
        let mut i: usize = 0;
        while i <= register_index
            invariant
                self.wf(),
                register_index < 16,
                i <= register_index + 1,
                r@ == self@.registers.subrange(0, i as int),
            decreases register_index + 1 - i,
        {
            r.push(self.registers[i]);
            proof {
                assert(r@ =~= self@.registers.subrange(0, i + 1));
            }
            i = i + 1;
        }
        r
    }

    /// Fills registers `0..bytes.len()` from a byte slice, for the bulk
    /// register-restore instruction; the remaining registers keep their
    /// values.
    pub fn set_values_upto_register(&mut self, bytes: Vec<u8>)
        requires
            old(self).wf(),
            bytes@.len() <= 16,
        ensures
            final(self).wf(),
            final(self)@ == (ProcessorView {
                registers: Seq::new(
                    16,
                    |i: int|
                        if i < bytes@.len() {
                            bytes@[i]
                        } else {
                            old(self)@.registers[i]
                        },
                ),
                ..old(self)@
            }),
    {
        let mut i: usize = 0;
        while i < bytes.len()
            invariant
                self.registers@.len() == 16,
                bytes@.len() <= 16,
                i <= bytes@.len(),
                forall|j: int| 0 <= j < i ==> self.registers@[j] == bytes@[j],
                forall|j: int| i <= j < 16 ==> self.registers@[j] == old(self)@.registers[j],
                self@ == (ProcessorView { registers: self.registers@, ..old(self)@ }),
            decreases bytes@.len() - i,
        {
            self.registers[i] = bytes[i];
            i = i + 1;
        }
        proof {
            assert(self.registers@ =~= Seq::new(
                16,
                |i: int|
                    if i < bytes@.len() {
                        bytes@[i]
                    } else {
                        old(self)@.registers[i]
                    },
            ));
        }
    }

    /// Writes `value` into general register `register_index`.
    pub fn set_register_value(&mut self, register_index: usize, value: u8)
        requires
            old(self).wf(),
            register_index < 16,
        ensures
            final(self).wf(),
            final(self)@ == (ProcessorView {
                registers: old(self)@.registers.update(register_index as int, value),
                ..old(self)@
            }),
    {
        self.registers[register_index] = value;
    }

    /// Writes `value` into the index register.
    pub fn set_index_register(&mut self, value: u16)
        ensures
            final(self)@ == (ProcessorView { index_register: value, ..old(self)@ }),
    {
        self.index_register = value;
    }

    /// The two register operands `(x, y)` of the latched opcode.
    pub fn get_opcode_register_values(&self) -> (r: (usize, usize))
        ensures
            r.0 == op_x(self@.opcode),
            r.1 == op_y(self@.opcode),
            r.0 < 16,
            r.1 < 16,
    {
        (crate::opcode::x_register(self.opcode), crate::opcode::y_register(self.opcode))
    }

    /// The count operand `n` of the latched opcode.
    pub fn get_opcode_nibble(&self) -> (r: u8)
        ensures
            r == op_n(self@.opcode),
            r < 0x10,
    {
        crate::opcode::low_nibble(self.opcode)
    }

    /// Reads the delay timer into register `register_index`.
    pub fn set_delay_timer_to_register(&mut self, register_index: usize)
        requires
            old(self).wf(),
            register_index < 16,
        ensures
            final(self).wf(),
            final(self)@ == (ProcessorView {
                registers: old(self)@.registers.update(
                    register_index as int,
                    old(self)@.delay_timer,
                ),
                ..old(self)@
            }),
    {
        self.registers[register_index] = self.delay_timer;
    }

    /// Starts the delay timer from register `register_index`.
    pub fn set_delay_timer(&mut self, register_index: usize)
        requires
            old(self).wf(),
            register_index < 16,
        ensures
            final(self).wf(),
            final(self)@ == (ProcessorView {
                delay_timer: old(self)@.registers[register_index as int],
                ..old(self)@
            }),
    {
        self.delay_timer = self.registers[register_index];
    }

    /// One countdown step of the delay timer: decrements toward zero,
    /// with a floor at zero.
    pub fn tick(&mut self)
        ensures
            final(self)@ == (ProcessorView {
                delay_timer: (if old(self)@.delay_timer > 0 {
                    old(self)@.delay_timer - 1
                } else {
                    0int
                }) as u8,
                ..old(self)@
            }),
    {
        if self.delay_timer > 0 {
            self.delay_timer = self.delay_timer - 1;
        }
    }

    /// Pops the return address at the top of the stack into the program
    /// counter; an empty stack is an underflow error, and the state is
    /// left untouched.
    pub fn subroutine_return(&mut self) -> (r: Result<(), ChipError>)
        requires
            old(self).wf(),
        ensures
            final(self).wf(),
            match spec_return(old(self)@) {
                Ok(v) => r == Ok::<(), ChipError>(()) && final(self)@ == v,
                Err(e) => r == Err::<(), ChipError>(e) && final(self)@ == old(self)@,
            },
    {
        match self.stack.pop() {
            Some(address) => {
                self.program_counter = address;
                proof {
                    assert(self@.stack =~= old(self)@.stack.drop_last());
                }
                Ok(())
            },
            None => Err(ChipError::StackUnderflow),
        }
    }

    /// Pushes the current program counter and jumps to the opcode's
    /// address operand; a full stack is an overflow error, and the
    /// state is left untouched.
    pub fn call(&mut self) -> (r: Result<(), ChipError>)
        requires
            old(self).wf(),
        ensures
            final(self).wf(),
            match spec_call(old(self)@) {
                Ok(v) => r == Ok::<(), ChipError>(()) && final(self)@ == v,
                Err(e) => r == Err::<(), ChipError>(e) && final(self)@ == old(self)@,
            },
    {
        if self.stack.len() >= STACK_DEPTH {
            return Err(ChipError::StackOverflow);
        }
        self.stack.push(self.program_counter);
        self.program_counter = crate::opcode::address_operand(self.opcode);
        Ok(())
    }

    /// Jumps to the opcode's address operand.
    pub fn jump(&mut self)
        ensures
            final(self)@ == (ProcessorView {
                program_counter: op_addr(old(self)@.opcode),
                ..old(self)@
            }),
    {
        self.program_counter = crate::opcode::address_operand(self.opcode);
    }

    /// Jumps to the opcode's address operand plus register 0.
    pub fn jump_plus_v0(&mut self)
        requires
            old(self).wf(),
        ensures
            final(self).wf(),
            final(self)@ == (ProcessorView {
                program_counter: (op_addr(old(self)@.opcode) + old(self)@.registers[0]) as u16,
                ..old(self)@
            }),
    {
        self.program_counter = crate::opcode::address_operand(self.opcode) + self.registers[0]
            as u16;
    }

    /// Steps the pseudo-random generator and writes the fresh random
    /// byte, masked by the immediate operand, into register `x`.
    pub fn assign_random(&mut self)
        requires
            old(self).wf(),
        ensures
            final(self).wf(),
            final(self)@ == (ProcessorView {
                registers: old(self)@.registers.update(
                    op_x(old(self)@.opcode),
                    rng_byte(old(self)@.rng) & op_kk(old(self)@.opcode),
                ),
                rng: rng_step(old(self)@.rng),
                ..old(self)@
            }),
    {
        let x = crate::opcode::x_register(self.opcode);
        let mask = crate::opcode::immediate_byte(self.opcode);
        let stepped: u32 = self.rng as u32 * 75 + 74;
        let next: u16 = (stepped % 0x10000) as u16;
        self.rng = next;
        self.registers[x] = (next % 0x100) as u8 & mask;
    }

    /// Skips the next instruction when register `x` equals the
    /// immediate operand.
    pub fn skip_on_equal(&mut self)
        requires
            old(self).wf(),
            old(self)@.program_counter + 2 <= u16::MAX,
        ensures
            final(self).wf(),
            final(self)@ == (ProcessorView {
                program_counter: (if old(self)@.registers[op_x(old(self)@.opcode)] == op_kk(
                    old(self)@.opcode,
                ) {
                    old(self)@.program_counter + 2
                } else {
                    old(self)@.program_counter as int
                }) as u16,
                ..old(self)@
            }),
    {
        let x = crate::opcode::x_register(self.opcode);
        let value = crate::opcode::immediate_byte(self.opcode);
        if self.registers[x] == value {
            self.increment_program_counter();
        }
    }

    /// Skips the next instruction when register `x` differs from the
    /// immediate operand.
    pub fn skip_on_not_equal(&mut self)
        requires
            old(self).wf(),
            old(self)@.program_counter + 2 <= u16::MAX,
        ensures
            final(self).wf(),
            final(self)@ == (ProcessorView {
                program_counter: (if old(self)@.registers[op_x(old(self)@.opcode)] != op_kk(
                    old(self)@.opcode,
                ) {
                    old(self)@.program_counter + 2
                } else {
                    old(self)@.program_counter as int
                }) as u16,
                ..old(self)@
            }),
    {
        let x = crate::opcode::x_register(self.opcode);
        let value = crate::opcode::immediate_byte(self.opcode);
        if self.registers[x] != value {
            self.increment_program_counter();
        }
    }

    /// Skips the next instruction when registers `x` and `y` are equal.
    pub fn skip_if_registers(&mut self)
        requires
            old(self).wf(),
            old(self)@.program_counter + 2 <= u16::MAX,
        ensures
            final(self).wf(),
            final(self)@ == (ProcessorView {
                program_counter: (if old(self)@.registers[op_x(old(self)@.opcode)] == old(
                    self,
                )@.registers[op_y(old(self)@.opcode)] {
                    old(self)@.program_counter + 2
                } else {
                    old(self)@.program_counter as int
                }) as u16,
                ..old(self)@
            }),
    {
        let x = crate::opcode::x_register(self.opcode);
        let y = crate::opcode::y_register(self.opcode);
        if self.registers[x] == self.registers[y] {
            self.increment_program_counter();
        }
    }

    /// Skips the next instruction when registers `x` and `y` differ.
    pub fn skip_if_not_regsiters(&mut self)
        requires
            old(self).wf(),
            old(self)@.program_counter + 2 <= u16::MAX,
        ensures
            final(self).wf(),
            final(self)@ == (ProcessorView {
                program_counter: (if old(self)@.registers[op_x(old(self)@.opcode)] != old(
                    self,
                )@.registers[op_y(old(self)@.opcode)] {
                    old(self)@.program_counter + 2
                } else {
                    old(self)@.program_counter as int
                }) as u16,
                ..old(self)@
            }),
    {
        let x = crate::opcode::x_register(self.opcode);
        let y = crate::opcode::y_register(self.opcode);
        if self.registers[x] != self.registers[y] {
            self.increment_program_counter();
        }
    }

    /// Writes the immediate operand into register `x`.
    pub fn load_into_register(&mut self)
        requires
            old(self).wf(),
        ensures
            final(self).wf(),
            final(self)@ == (ProcessorView {
                registers: old(self)@.registers.update(
                    op_x(old(self)@.opcode),
                    op_kk(old(self)@.opcode),
                ),
                ..old(self)@
            }),
    {
        let x = crate::opcode::x_register(self.opcode);
        self.registers[x] = crate::opcode::immediate_byte(self.opcode);
    }

    /// Copies register `y` into register `x`.
    pub fn copy_register(&mut self)
        requires
            old(self).wf(),
        ensures
            final(self).wf(),
            final(self)@ == (ProcessorView {
                registers: old(self)@.registers.update(
                    op_x(old(self)@.opcode),
                    old(self)@.registers[op_y(old(self)@.opcode)],
                ),
                ..old(self)@
            }),
    {
        let x = crate::opcode::x_register(self.opcode);
        let y = crate::opcode::y_register(self.opcode);
        self.registers[x] = self.registers[y];
    }

    /// Bitwise ORs register `y` into register `x`.
    pub fn or_registers(&mut self)
        requires
            old(self).wf(),
        ensures
            final(self).wf(),
            final(self)@ == (ProcessorView {
                registers: old(self)@.registers.update(
                    op_x(old(self)@.opcode),
                    old(self)@.registers[op_x(old(self)@.opcode)] | old(self)@.registers[op_y(
                        old(self)@.opcode,
                    )],
                ),
                ..old(self)@
            }),
    {
        let x = crate::opcode::x_register(self.opcode);
        let y = crate::opcode::y_register(self.opcode);
        self.registers[x] = self.registers[x] | self.registers[y];
    }

    /// Bitwise ANDs register `y` into register `x`.
    pub fn and_registers(&mut self)
        requires
            old(self).wf(),
        ensures
            final(self).wf(),
            final(self)@ == (ProcessorView {
                registers: old(self)@.registers.update(
                    op_x(old(self)@.opcode),
                    old(self)@.registers[op_x(old(self)@.opcode)] & old(self)@.registers[op_y(
                        old(self)@.opcode,
                    )],
                ),
                ..old(self)@
            }),
    {
        let x = crate::opcode::x_register(self.opcode);
        let y = crate::opcode::y_register(self.opcode);
        self.registers[x] = self.registers[x] & self.registers[y];
    }

    /// Bitwise XORs register `y` into register `x`.
    pub fn xor_registers(&mut self)
        requires
            old(self).wf(),
        ensures
            final(self).wf(),
            final(self)@ == (ProcessorView {
                registers: old(self)@.registers.update(
                    op_x(old(self)@.opcode),
                    old(self)@.registers[op_x(old(self)@.opcode)] ^ old(self)@.registers[op_y(
                        old(self)@.opcode,
                    )],
                ),
                ..old(self)@
            }),
    {
        let x = crate::opcode::x_register(self.opcode);
        let y = crate::opcode::y_register(self.opcode);
        self.registers[x] = self.registers[x] ^ self.registers[y];
    }

    /// Adds register `y` into register `x`, reporting carry in the flag
    /// register: the flag becomes 1 exactly when the true sum exceeds
    /// 255, and register `x` receives the sum modulo 256.
    pub fn add_registers(&mut self)
        requires
            old(self).wf(),
        ensures
            final(self).wf(),
            final(self)@ == (ProcessorView {
                registers: ({
                    let x = op_x(old(self)@.opcode);
                    let sum = old(self)@.registers[x] + old(self)@.registers[op_y(
                        old(self)@.opcode,
                    )];
                    old(self)@.registers.update(15, (if sum > 255 {
                        1u8
                    } else {
                        0u8
                    })).update(x, (sum % 256) as u8)
                }),
                ..old(self)@
            }),
    {
        let x = crate::opcode::x_register(self.opcode);
        let y = crate::opcode::y_register(self.opcode);
        let sum: u16 = self.registers[x] as u16 + self.registers[y] as u16;
        self.registers[15] = if sum > 0xFF {
            1
        } else {
            0
        };
        self.registers[x] = (sum % 0x100) as u8;
    }

    /// Adds register `register_index` into the index register, wrapping
    /// modulo the 16-bit range.
    pub fn add_register_to_i(&mut self, register_index: usize)
        requires
            old(self).wf(),
            register_index < 16,
        ensures
            final(self).wf(),
            final(self)@ == (ProcessorView {
                index_register: ((old(self)@.index_register + old(self)@.registers[
                    register_index as int]) % 0x10000) as u16,
                ..old(self)@
            }),
    {
        let sum: u32 = self.index_register as u32 + self.registers[register_index] as u32;
        self.index_register = (sum % 0x10000) as u16;
    }

    /// Subtracts register `y` from register `x`, reporting borrow in
    /// the flag register: the flag becomes 0 exactly when a borrow
    /// occurred (`x < y`), 1 otherwise, and register `x` receives the
    /// difference modulo 256.
    pub fn sub_registers(&mut self)
        requires
            old(self).wf(),
        ensures
            final(self).wf(),
            final(self)@ == (ProcessorView {
                registers: ({
                    let x = op_x(old(self)@.opcode);
                    let vx = old(self)@.registers[x];
                    let vy = old(self)@.registers[op_y(old(self)@.opcode)];
                    old(self)@.registers.update(15, (if vx >= vy {
                        1u8
                    } else {
                        0u8
                    })).update(x, ((vx - vy) % 256) as u8)
                }),
                ..old(self)@
            }),
    {
        let x = crate::opcode::x_register(self.opcode);
        let y = crate::opcode::y_register(self.opcode);
        let vx = self.registers[x];
        let vy = self.registers[y];
        self.registers[15] = if vx >= vy {
            1
        } else {
            0
        };
        let difference = if vx >= vy {
            vx - vy
        } else {
            ((0x100 + vx as u16) - vy as u16) as u8
        };
        self.registers[x] = difference;
        proof {
            vstd::arithmetic::div_mod::lemma_mod_add_multiples_vanish(vx - vy, 256);
            if vx >= vy {
                vstd::arithmetic::div_mod::lemma_small_mod((vx - vy) as nat, 256nat);
            } else {
                vstd::arithmetic::div_mod::lemma_small_mod((0x100 + vx - vy) as nat, 256nat);
            }
        }
    }

    /// Subtracts register `x` from register `y`, storing into `x` and
    /// reporting borrow in the flag register: the flag becomes 0
    /// exactly when a borrow occurred (`y < x`), 1 otherwise.
    pub fn sub_reverse_registers(&mut self)
        requires
            old(self).wf(),
        ensures
            final(self).wf(),
            final(self)@ == (ProcessorView {
                registers: ({
                    let x = op_x(old(self)@.opcode);
                    let vx = old(self)@.registers[x];
                    let vy = old(self)@.registers[op_y(old(self)@.opcode)];
                    old(self)@.registers.update(15, (if vy >= vx {
                        1u8
                    } else {
                        0u8
                    })).update(x, ((vy - vx) % 256) as u8)
                }),
                ..old(self)@
            }),
    {
        let x = crate::opcode::x_register(self.opcode);
        let y = crate::opcode::y_register(self.opcode);
        let vx = self.registers[x];
        let vy = self.registers[y];
        self.registers[15] = if vy >= vx {
            1
        } else {
            0
        };
        let difference = if vy >= vx {
            vy - vx
        } else {
            ((0x100 + vy as u16) - vx as u16) as u8
        };
        self.registers[x] = difference;
        proof {
            vstd::arithmetic::div_mod::lemma_mod_add_multiples_vanish(vy - vx, 256);
            if vy >= vx {
                vstd::arithmetic::div_mod::lemma_small_mod((vy - vx) as nat, 256nat);
            } else {
                vstd::arithmetic::div_mod::lemma_small_mod((0x100 + vy - vx) as nat, 256nat);
            }
        }
    }

    /// Halves register `x`, capturing the shifted-out low bit in the
    /// flag register before the shift takes effect.
    pub fn div_by_two(&mut self)
        requires
            old(self).wf(),
        ensures
            final(self).wf(),
            final(self)@ == (ProcessorView {
                registers: ({
                    let x = op_x(old(self)@.opcode);
                    let vx = old(self)@.registers[x];
                    old(self)@.registers.update(15, (vx % 2) as u8).update(x, (vx / 2) as u8)
                }),
                ..old(self)@
            }),
    {
        let x = crate::opcode::x_register(self.opcode);
        let vx = self.registers[x];
        self.registers[15] = vx % 2;
        self.registers[x] = vx / 2;
    }

    /// Doubles register `x` modulo 256, capturing the shifted-out high
    /// bit in the flag register before the shift takes effect.
    pub fn multiply_by_two(&mut self)
        requires
            old(self).wf(),
        ensures
            final(self).wf(),
            final(self)@ == (ProcessorView {
                registers: ({
                    let x = op_x(old(self)@.opcode);
                    let vx = old(self)@.registers[x];
                    old(self)@.registers.update(15, (vx / 128) as u8).update(
                        x,
                        ((vx * 2) % 256) as u8,
                    )
                }),
                ..old(self)@
            }),
    {
        let x = crate::opcode::x_register(self.opcode);
        let vx = self.registers[x];
        self.registers[15] = vx / 128;
        self.registers[x] = ((vx as u16 * 2) % 0x100) as u8;
    }

    /// Writes the opcode's address operand into the index register.
    pub fn load_into_index_register(&mut self)
        ensures
            final(self)@ == (ProcessorView {
                index_register: op_addr(old(self)@.opcode),
                ..old(self)@
            }),
    {
        self.index_register = crate::opcode::address_operand(self.opcode);
    }

    /// Adds the immediate operand into register `x`, wrapping modulo
    /// 256; the flag register is untouched.
    pub fn add_to_register(&mut self)
        requires
            old(self).wf(),
        ensures
            final(self).wf(),
            final(self)@ == (ProcessorView {
                registers: ({
                    let x = op_x(old(self)@.opcode);
                    old(self)@.registers.update(
                        x,
                        ((old(self)@.registers[x] + op_kk(old(self)@.opcode)) % 256) as u8,
                    )
                }),
                ..old(self)@
            }),
    {
        let x = crate::opcode::x_register(self.opcode);
        let value = crate::opcode::immediate_byte(self.opcode);
        let sum: u16 = self.registers[x] as u16 + value as u16;
        self.registers[x] = (sum % 0x100) as u8;
    }
}

/// A call followed by a return restores the program counter to the
/// value it held when the call was issued (the address just past the
/// call instruction, since the counter advances before dispatch) and
/// restores the stack to its pre-call contents; everything else is
/// untouched.
pub proof fn lemma_call_return_roundtrip(v: ProcessorView)
    requires
        v.stack.len() < STACK_DEPTH,
    ensures
        spec_call(v) matches Ok(called) && spec_return(called) matches Ok(returned) && returned
            =~= (ProcessorView { program_counter: v.program_counter, ..v }),
{
    let called = spec_call(v)->Ok_0;
    assert(called.stack.last() == v.program_counter);
    assert(called.stack.drop_last() =~= v.stack);
}

} // verus!
