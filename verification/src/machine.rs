//! The mathematical model of one machine cycle.
//!
//! [`MachineView`] is the abstract state of the whole machine; the spec
//! functions here say, instruction by instruction, what one
//! fetch-decode-execute-tick cycle does to it, including exactly which
//! error stops a cycle and on which states. The executable interpreter
//! in [`crate::chip_eight`] is proved to implement [`spec_cycle`].

use vstd::prelude::*;

use crate::error::ChipError;
use crate::graphics::{draw_collision, draw_result};
use crate::keypad::Position;
use crate::memory::{opcode_at, MEMORY_SIZE};
use crate::opcode::{op_addr, op_family, op_kk, op_n, op_x, op_y};
use crate::processor::{
    rng_byte, rng_step, spec_call, spec_return, MachineState, ProcessorView,
};

verus! {

/// The abstract state of the whole machine: memory, framebuffer,
/// keypad, sound timer, and the register file with its control state.
#[verifier::ext_equal]
pub struct MachineView {
    /// All 4096 memory bytes.
    pub memory: Seq<u8>,
    /// All 2048 framebuffer pixels, row-major.
    pub display: Seq<bool>,
    /// The sixteen key positions.
    pub keys: Seq<Position>,
    /// The sound timer counter.
    pub sound_timer: u8,
    /// The register file and control state.
    pub cpu: ProcessorView,
}

/// The whole machine right after power-on: zeroed memory, cleared
/// framebuffer, all keys up, timers stopped, program counter at `0x200`.
pub open spec fn init_machine_view() -> MachineView {
    MachineView {
        memory: Seq::new(MEMORY_SIZE as nat, |i: int| 0u8),
        display: Seq::new(crate::graphics::PIXELS as nat, |i: int| false),
        keys: Seq::new(16, |i: int| Position::UP),
        sound_timer: 0,
        cpu: crate::processor::init_processor_view(),
    }
}

/// Structural soundness of a machine state: every component has its
/// fixed size and the wait target names a real register.
pub open spec fn view_wf(v: MachineView) -> bool {
    &&& v.memory.len() == MEMORY_SIZE
    &&& v.display.len() == crate::graphics::PIXELS
    &&& v.keys.len() == 16
    &&& v.cpu.registers.len() == 16
    &&& v.cpu.stack.len() <= crate::processor::STACK_DEPTH
    &&& v.cpu.key_register < 16
}

/// Replaces the register file of a machine state.
pub open spec fn with_cpu(v: MachineView, cpu: ProcessorView) -> MachineView {
    MachineView { cpu, ..v }
}

/// Writes one general register.
pub open spec fn set_reg(c: ProcessorView, i: int, value: u8) -> ProcessorView {
    ProcessorView { registers: c.registers.update(i, value), ..c }
}

/// Sets the program counter.
pub open spec fn set_pc(c: ProcessorView, pc: u16) -> ProcessorView {
    ProcessorView { program_counter: pc, ..c }
}

/// Moves the program counter past one instruction, skipping it.
pub open spec fn skip_pc(c: ProcessorView) -> ProcessorView {
    set_pc(c, (c.program_counter + 2) as u16)
}

/// A range of memory overwritten with `bytes`, everything else intact.
pub open spec fn write_range(mem: Seq<u8>, start: int, bytes: Seq<u8>) -> Seq<u8> {
    Seq::new(
        mem.len(),
        |i: int|
            if start <= i < start + bytes.len() {
                bytes[i - start]
            } else {
                mem[i]
            },
    )
}

/// One tick of both countdown timers: each decrements toward zero,
/// never below.
pub open spec fn tick_timers(v: MachineView) -> MachineView {
    MachineView {
        sound_timer: (if v.sound_timer > 0 {
            v.sound_timer - 1
        } else {
            0int
        }) as u8,
        cpu: ProcessorView {
            delay_timer: (if v.cpu.delay_timer > 0 {
                v.cpu.delay_timer - 1
            } else {
                0int
            }) as u8,
            ..v.cpu
        },
        ..v
    }
}

/// The undecodable-instruction error for the word fetched at `addr`.
pub open spec fn invalid(op: u16, addr: u16) -> ChipError {
    ChipError::InvalidOpcode { opcode: op, address: addr }
}

/// The `0x0` family: clear the screen, or return from a subroutine.
/// Anything else in this family is undecodable.
pub open spec fn spec_end_op(v: MachineView, addr: u16) -> (MachineView, Option<ChipError>) {
    let op = v.cpu.opcode;
    if op == 0x00E0 {
        (MachineView { display: Seq::new(v.display.len(), |i: int| false), ..v }, None)
    } else if op == 0x00EE {
        match spec_return(v.cpu) {
            Ok(c) => (with_cpu(v, c), None),
            Err(e) => (v, Some(e)),
        }
    } else {
        (v, Some(invalid(op, addr)))
    }
}

/// The `0x8` family: register-to-register moves, bitwise operations,
/// add with carry, the two subtractions with borrow, and the two
/// shifts, selected by the low nibble. The flag register receives the
/// carry, borrow, or shifted-out bit, computed from the operands'
/// values before any write.
pub open spec fn spec_register_op(v: MachineView, addr: u16) -> (MachineView, Option<ChipError>) {
    let op = v.cpu.opcode;
    let x = op_x(op);
    let y = op_y(op);
    let vx = v.cpu.registers[x];
    let vy = v.cpu.registers[y];
    let c = v.cpu;
    match op_n(op) {
        0x0 => (with_cpu(v, set_reg(c, x, vy)), None),
        0x1 => (with_cpu(v, set_reg(c, x, vx | vy)), None),
        0x2 => (with_cpu(v, set_reg(c, x, vx & vy)), None),
        0x3 => (with_cpu(v, set_reg(c, x, vx ^ vy)), None),
        0x4 => (
            with_cpu(
                v,
                ProcessorView {
                    registers: c.registers.update(15, (if vx + vy > 255 {
                        1u8
                    } else {
                        0u8
                    })).update(x, ((vx + vy) % 256) as u8),
                    ..c
                },
            ),
            None,
        ),
        0x5 => (
            with_cpu(
                v,
                ProcessorView {
                    registers: c.registers.update(15, (if vx >= vy {
                        1u8
                    } else {
                        0u8
                    })).update(x, ((vx - vy) % 256) as u8),
                    ..c
                },
            ),
            None,
        ),
        0x6 => (
            with_cpu(
                v,
                ProcessorView {
                    registers: c.registers.update(15, (vx % 2) as u8).update(x, (vx / 2) as u8),
                    ..c
                },
            ),
            None,
        ),
        0x7 => (
            with_cpu(
                v,
                ProcessorView {
                    registers: c.registers.update(15, (if vy >= vx {
                        1u8
                    } else {
                        0u8
                    })).update(x, ((vy - vx) % 256) as u8),
                    ..c
                },
            ),
            None,
        ),
        0xE => (
            with_cpu(
                v,
                ProcessorView {
                    registers: c.registers.update(15, (vx / 128) as u8).update(
                        x,
                        ((vx * 2) % 256) as u8,
                    ),
                    ..c
                },
            ),
            None,
        ),
        _ => (v, Some(invalid(op, addr))),
    }
}

/// The `0xE` family: skip the next instruction depending on whether the
/// key named by register `x` (taken modulo 16) is down (`0x9E`) or up
/// (`0xA1`).
pub open spec fn spec_keyboard_op(v: MachineView, addr: u16) -> (MachineView, Option<ChipError>) {
    let op = v.cpu.opcode;
    let key = (v.cpu.registers[op_x(op)] % 16) as int;
    if op_kk(op) == 0x9E {
        if v.keys[key] is DOWN {
            (with_cpu(v, skip_pc(v.cpu)), None)
        } else {
            (v, None)
        }
    } else if op_kk(op) == 0xA1 {
        if v.keys[key] is UP {
            (with_cpu(v, skip_pc(v.cpu)), None)
        } else {
            (v, None)
        }
    } else {
        (v, Some(invalid(op, addr)))
    }
}

/// The `0xF` family: timer transfers, the blocking key-wait, index
/// arithmetic, glyph lookup, binary-coded-decimal decomposition, and
/// the two bulk register/memory transfers, selected by the low byte.
pub open spec fn spec_util_op(v: MachineView, addr: u16) -> (MachineView, Option<ChipError>) {
    let op = v.cpu.opcode;
    let x = op_x(op);
    let vx = v.cpu.registers[x];
    let c = v.cpu;
    let i = c.index_register;
    match op_kk(op) {
        0x07 => (with_cpu(v, set_reg(c, x, c.delay_timer)), None),
        0x0A => (
            with_cpu(
                v,
                ProcessorView { state: MachineState::AwaitingKey, key_register: x as u8, ..c },
            ),
            None,
        ),
        0x15 => (with_cpu(v, ProcessorView { delay_timer: vx, ..c }), None),
        0x18 => (MachineView { sound_timer: vx, ..v }, None),
        0x1E => (
            with_cpu(
                v,
                ProcessorView { index_register: ((i + vx) % 0x10000) as u16, ..c },
            ),
            None,
        ),
        0x29 => if vx > 15 {
            (v, Some(ChipError::InvalidDigit))
        } else {
            (with_cpu(v, ProcessorView { index_register: (5 * vx) as u16, ..c }), None)
        },
        0x33 => if i + 3 > MEMORY_SIZE {
            (v, Some(ChipError::OutOfBounds))
        } else {
            (
                MachineView {
                    memory: write_range(
                        v.memory,
                        i as int,
                        seq![(vx / 100) as u8, ((vx / 10) % 10) as u8, (vx % 10) as u8],
                    ),
                    ..v
                },
                None,
            )
        },
        0x55 => if i + x + 1 > MEMORY_SIZE {
            (v, Some(ChipError::OutOfBounds))
        } else {
            (
                MachineView {
                    memory: write_range(v.memory, i as int, c.registers.subrange(0, x + 1)),
                    ..v
                },
                None,
            )
        },
        0x65 => if i + x + 1 > MEMORY_SIZE {
            (v, Some(ChipError::OutOfBounds))
        } else {
            (
                with_cpu(
                    v,
                    ProcessorView {
                        registers: Seq::new(
                            16,
                            |j: int|
                                if j < x + 1 {
                                    v.memory[i + j]
                                } else {
                                    c.registers[j]
                                },
                        ),
                        ..c
                    },
                ),
                None,
            )
        },
        _ => (v, Some(invalid(op, addr))),
    }
}

/// One execute step: dispatches the latched opcode (fetched at `addr`,
/// with the program counter already advanced past it) across the 16
/// instruction families. Returns the machine after the instruction's
/// effect, together with the error that stopped it, if any; a stopped
/// instruction leaves the machine exactly as it stood after the fetch.
#[verifier::opaque]
pub open spec fn spec_execute(v: MachineView, addr: u16) -> (MachineView, Option<ChipError>) {
    let op = v.cpu.opcode;
    let x = op_x(op);
    let y = op_y(op);
    let kk = op_kk(op);
    let nnn = op_addr(op);
    let c = v.cpu;
    match op_family(op) {
        0x0 => spec_end_op(v, addr),
        0x1 => (with_cpu(v, set_pc(c, nnn)), None),
        0x2 => match spec_call(c) {
            Ok(c2) => (with_cpu(v, c2), None),
            Err(e) => (v, Some(e)),
        },
        0x3 => if c.registers[x] == kk {
            (with_cpu(v, skip_pc(c)), None)
        } else {
            (v, None)
        },
        0x4 => if c.registers[x] != kk {
            (with_cpu(v, skip_pc(c)), None)
        } else {
            (v, None)
        },
        0x5 => if op_n(op) != 0 {
            (v, Some(invalid(op, addr)))
        } else if c.registers[x] == c.registers[y] {
            (with_cpu(v, skip_pc(c)), None)
        } else {
            (v, None)
        },
        0x6 => (with_cpu(v, set_reg(c, x, kk)), None),
        0x7 => (with_cpu(v, set_reg(c, x, ((c.registers[x] + kk) % 256) as u8)), None),
        0x8 => spec_register_op(v, addr),
        0x9 => if op_n(op) != 0 {
            (v, Some(invalid(op, addr)))
        } else if c.registers[x] != c.registers[y] {
            (with_cpu(v, skip_pc(c)), None)
        } else {
            (v, None)
        },
        0xA => (with_cpu(v, ProcessorView { index_register: nnn, ..c }), None),
        0xB => (with_cpu(v, set_pc(c, (nnn + c.registers[0]) as u16)), None),
        0xC => (
            with_cpu(
                v,
                ProcessorView {
                    registers: c.registers.update(x, rng_byte(c.rng) & kk),
                    rng: rng_step(c.rng),
                    ..c
                },
            ),
            None,
        ),
        0xD => {
            let n = op_n(op);
            if c.index_register + n > MEMORY_SIZE {
                (v, Some(ChipError::OutOfBounds))
            } else {
                let sprite = v.memory.subrange(
                    c.index_register as int,
                    c.index_register + n,
                );
                let collision = draw_collision(
                    v.display,
                    sprite,
                    c.registers[x] as int,
                    c.registers[y] as int,
                );
                (
                    MachineView {
                        display: draw_result(
                            v.display,
                            sprite,
                            c.registers[x] as int,
                            c.registers[y] as int,
                        ),
                        cpu: set_reg(c, 15, (if collision {
                            1u8
                        } else {
                            0u8
                        })),
                        ..v
                    },
                    None,
                )
            }
        },
        0xE => spec_keyboard_op(v, addr),
        _ => spec_util_op(v, addr),
    }
}

/// One whole machine cycle. While a key-wait is armed, the cycle only
/// ticks the timers: it neither fetches nor advances the program
/// counter. Otherwise it fetches the instruction word at the program
/// counter (an out-of-range counter is an error that changes nothing),
/// advances the counter past it, executes it, and ticks both timers.
/// A cycle stopped by an error reports it without ticking the timers,
/// leaving the machine as the failed step left it.
#[verifier::opaque]
pub open spec fn spec_cycle(v: MachineView) -> (MachineView, Option<ChipError>) {
    if v.cpu.state is AwaitingKey {
        (tick_timers(v), None)
    } else if v.cpu.program_counter > 0xFFE {
        (v, Some(ChipError::OutOfBounds))
    } else {
        let pc = v.cpu.program_counter;
        let op = opcode_at(v.memory, pc as int);
        let fetched = with_cpu(
            v,
            ProcessorView { opcode: op, program_counter: (pc + 2) as u16, ..v.cpu },
        );
        let stepped = spec_execute(fetched, pc);
        if stepped.1 is Some {
            stepped
        } else {
            (tick_timers(stepped.0), None)
        }
    }
}

/// A key event: records the key's new position; a press delivered
/// while a key-wait is armed also writes the key's index into the
/// waiting register and resumes execution.
pub open spec fn spec_key_event(v: MachineView, index: u8, pressed: bool) -> MachineView {
    let keys2 = v.keys.update(index as int, if pressed {
        Position::DOWN
    } else {
        Position::UP
    });
    if pressed && v.cpu.state is AwaitingKey {
        MachineView {
            keys: keys2,
            cpu: ProcessorView {
                registers: v.cpu.registers.update(v.cpu.key_register as int, index),
                state: MachineState::Running,
                ..v.cpu
            },
            ..v
        }
    } else {
        MachineView { keys: keys2, ..v }
    }
}

/// Up to `n` machine cycles: stops at the first error, reporting it and
/// the machine state it left.
pub open spec fn spec_run(v: MachineView, n: nat) -> (MachineView, Option<ChipError>)
    decreases n,
{
    if n == 0 {
        (v, None)
    } else {
        let stepped = spec_cycle(v);
        if stepped.1 is Some {
            stepped
        } else {
            spec_run(stepped.0, (n - 1) as nat)
        }
    }
}

/// Splitting a run: after `i` error-free cycles, the remaining `n - i`
/// cycles continue from where they left off.
pub proof fn lemma_run_split(v: MachineView, i: nat, n: nat)
    requires
        i <= n,
        spec_run(v, i).1 is None,
    ensures
        spec_run(v, n) == spec_run(spec_run(v, i).0, (n - i) as nat),
    decreases i,
{
    if i > 0 {
        let stepped = spec_cycle(v);
        assert(stepped.1 is None) by {
            if stepped.1 is Some {
                assert(spec_run(v, i) == stepped);
            }
        }
        lemma_run_split(stepped.0, (i - 1) as nat, (n - 1) as nat);
    }
}

/// Extending an error-free run by one error-free cycle.
pub proof fn lemma_run_step(start: MachineView, pre: MachineView, post: MachineView, i: nat)
    requires
        spec_run(start, i) == (pre, None::<ChipError>),
        spec_cycle(pre).1 is None,
        spec_cycle(pre).0 == post,
    ensures
        spec_run(start, i + 1) == (post, None::<ChipError>),
{
    lemma_run_split(start, i, i + 1);
    assert(spec_run(pre, 1nat) == (post, None::<ChipError>)) by {
        reveal_with_fuel(spec_run, 2);
    }
}

/// A run of any greater length stops at the first failing cycle,
/// reporting its error and the machine state it left.
pub proof fn lemma_run_stop(
    start: MachineView,
    pre: MachineView,
    post: MachineView,
    i: nat,
    n: nat,
    e: ChipError,
)
    requires
        i < n,
        spec_run(start, i) == (pre, None::<ChipError>),
        spec_cycle(pre) == (post, Some(e)),
    ensures
        spec_run(start, n) == (post, Some(e)),
{
    lemma_run_split(start, i, n);
    assert(spec_run(pre, (n - i) as nat) == (post, Some(e)));
}

/// A call/return round trip through whole machine cycles: executing a
/// call instruction and then the return instruction at its target
/// leaves the program counter at the address just past the call, with
/// the call stack exactly as it was before the call.
pub proof fn lemma_call_return_cycles(v: MachineView)
    requires
        view_wf(v),
        v.cpu.state is Running,
        v.cpu.stack.len() < crate::processor::STACK_DEPTH,
        v.cpu.program_counter <= 0xFFE,
        op_family(opcode_at(v.memory, v.cpu.program_counter as int)) == 0x2,
        op_addr(opcode_at(v.memory, v.cpu.program_counter as int)) <= 0xFFE,
        opcode_at(
            v.memory,
            op_addr(opcode_at(v.memory, v.cpu.program_counter as int)) as int,
        ) == 0x00EE,
    ensures
        spec_cycle(v).1 is None,
        spec_cycle(spec_cycle(v).0).1 is None,
        spec_cycle(spec_cycle(v).0).0.cpu.program_counter == v.cpu.program_counter + 2,
        spec_cycle(spec_cycle(v).0).0.cpu.stack =~= v.cpu.stack,
{
    reveal(spec_cycle);
    reveal(spec_execute);
    let called = spec_cycle(v).0;
    assert(called.cpu.stack.last() == v.cpu.program_counter + 2);
    assert(called.cpu.stack.drop_last() =~= v.cpu.stack);
}

/// While a key-wait is armed, a cycle succeeds, leaves the program
/// counter untouched, stays suspended, and only the timers move.
pub proof fn lemma_wait_blocks(v: MachineView)
    requires
        v.cpu.state is AwaitingKey,
    ensures
        spec_cycle(v).1 is None,
        spec_cycle(v).0.cpu.program_counter == v.cpu.program_counter,
        spec_cycle(v).0.cpu.state is AwaitingKey,
        spec_cycle(v).0.memory == v.memory,
        spec_cycle(v).0.display == v.display,
        spec_cycle(v).0.cpu.registers == v.cpu.registers,
{
    reveal(spec_cycle);
}

} // verus!
