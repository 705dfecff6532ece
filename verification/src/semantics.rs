//! What each instruction does to the machine.
//!
//! Registers wrap at their own width: the `V` registers modulo 256, `I` and
//! the program counter modulo 65536. Every memory address is taken modulo
//! 4096. The stack cannot wrap: a call on a full stack and a return on an
//! empty one are faults, and a faulting instruction changes nothing.

use vstd::prelude::*;
use crate::display::{blank, drawn, erases};
use crate::font::font_memory;
use crate::instruction::Instruction;
use crate::state::{CpuState, Diagnostic, Fault, Progress};
use crate::timer::decayed;

verus! {

/// An integer reduced to 8 bits.
pub open spec fn wrap8(n: int) -> u8 {
    (n % 256) as u8
}

/// An integer reduced to 16 bits.
pub open spec fn wrap16(n: int) -> u16 {
    (n % 65536) as u16
}

/// The memory cell that an integer addresses.
pub open spec fn cell(n: int) -> int {
    n % 4096
}

/// The instruction word stored at `pc`: high byte first.
pub open spec fn word_at(memory: Seq<u8>, pc: u16) -> u16 {
    (memory[cell(pc as int)] * 256 + memory[cell(pc + 1)]) as u16
}

/// Whether the key numbered `key` is held. There are sixteen keys; a number
/// beyond them names no key, and no key is never held.
pub open spec fn key_held(keys: Seq<bool>, key: u8) -> bool {
    key < 16 && keys[key as int]
}

/// The lowest key number from `from` upwards that is held, or 16 if there is
/// none.
pub open spec fn first_held(keys: Seq<bool>, from: int) -> int
    decreases 16 - from,
{
    if from >= 16 {
        16
    } else if keys[from] {
        from
    } else {
        first_held(keys, from + 1)
    }
}

/// How many cells after the one that `i` addresses the cell `a` lies, going
/// round from the last cell to the first.
pub open spec fn offset(a: int, i: u16) -> int {
    (a - i) % 4096
}

/// Memory after registers `V[0..=x]` have been stored at `i`, `i+1`, ...
pub open spec fn registers_stored(memory: Seq<u8>, v: Seq<u8>, i: u16, x: u8) -> Seq<u8> {
    Seq::new(
        4096,
        |a: int|
            if offset(a, i) <= x {
                v[offset(a, i)]
            } else {
                memory[a]
            },
    )
}

/// The registers after `V[0..=x]` have been loaded from `i`, `i+1`, ...
pub open spec fn registers_loaded(memory: Seq<u8>, v: Seq<u8>, i: u16, x: u8) -> Seq<u8> {
    Seq::new(
        16,
        |k: int|
            if k <= x {
                memory[cell(i + k)]
            } else {
                v[k]
            },
    )
}

/// Memory after the decimal digits of `value` have been stored at `i`,
/// `i+1`, `i+2`: hundreds, tens, ones.
pub open spec fn digits_stored(memory: Seq<u8>, i: u16, value: u8) -> Seq<u8> {
    memory.update(cell(i as int), (value / 100) as u8).update(
        cell(i + 1),
        ((value / 10) % 10) as u8,
    ).update(cell(i + 2), (value % 10) as u8)
}

/// Memory after the program `rom` has been placed from address `0x200` on.
pub open spec fn program_loaded(memory: Seq<u8>, rom: Seq<u8>) -> Seq<u8> {
    Seq::new(
        4096,
        |a: int|
            if 0x200 <= a < 0x200 + rom.len() {
                rom[a - 0x200]
            } else {
                memory[a]
            },
    )
}

impl CpuState {
    /// The state of a machine that has just been made: every register, every
    /// byte and every pixel zero, no key held, nothing on the stack and
    /// nothing logged.
    pub open spec fn fresh() -> CpuState {
        CpuState {
            i: 0,
            pc: 0,
            memory: Seq::new(4096, |a: int| 0u8),
            v: Seq::new(16, |k: int| 0u8),
            pixels: blank(),
            stack: Seq::new(16, |k: int| 0u16),
            sp: 0,
            delay: 0,
            sound: 0,
            keys: Seq::new(16, |k: int| false),
            halt: false,
            log: Seq::empty(),
        }
    }

    /// The state after a reset: the font in memory, the program counter at
    /// the start of the program area, the rest of the processor zero. The
    /// keys are the host's and the log only ever grows: both stay.
    pub open spec fn reset(self) -> CpuState {
        CpuState {
            i: 0,
            pc: 0x200,
            memory: font_memory(),
            v: Seq::new(16, |k: int| 0u8),
            pixels: blank(),
            stack: Seq::new(16, |k: int| 0u16),
            sp: 0,
            delay: 0,
            sound: 0,
            keys: self.keys,
            halt: false,
            log: self.log,
        }
    }

    /// The state with the program counter on the next instruction.
    pub open spec fn advanced(self) -> CpuState {
        CpuState { pc: wrap16(self.pc + 2), ..self }
    }

    /// The state with the program counter past the next instruction.
    pub open spec fn skipped(self) -> CpuState {
        CpuState { pc: wrap16(self.pc + 4), ..self }
    }

    /// The state with the program counter past the next instruction if
    /// `skip` holds, and on it otherwise.
    pub open spec fn branched(self, skip: bool) -> CpuState {
        if skip {
            self.skipped()
        } else {
            self.advanced()
        }
    }

    /// The state with `V[x] = value`.
    pub open spec fn with_register(self, x: u8, value: u8) -> CpuState {
        CpuState { v: self.v.update(x as int, value), ..self }
    }

    /// The state with `V[x] = value` and then `VF = flag`.
    pub open spec fn with_result_then_flag(self, x: u8, value: u8, flag: u8) -> CpuState {
        CpuState { v: self.v.update(x as int, value).update(15, flag), ..self }
    }

    /// The state with `VF = flag` and then `V[x] = value`.
    pub open spec fn with_flag_then_result(self, x: u8, value: u8, flag: u8) -> CpuState {
        CpuState { v: self.v.update(15, flag).update(x as int, value), ..self }
    }

    /// The state with one more entry in the diagnostics log.
    pub open spec fn logged(self, entry: Diagnostic) -> CpuState {
        CpuState { log: self.log.push(entry), ..self }
    }

    /// The state after the sprite of `rows` rows at `I` has been drawn at
    /// `(cx, cy)`: the flag is raised if a pixel was turned off, and is left
    /// alone otherwise.
    pub open spec fn sprite_drawn(self, cx: u8, cy: u8, rows: u8) -> CpuState {
        CpuState {
            pixels: drawn(self.pixels, self.memory, self.i, cx, cy, rows),
            v: if erases(self.pixels, self.memory, self.i, cx, cy, rows) {
                self.v.update(15, 1u8)
            } else {
                self.v
            },
            ..self
        }
    }

    /// The return address that was pushed last.
    pub open spec fn top(self) -> u16 {
        self.stack[self.sp - 1]
    }

    /// The state with `value` on top of the stack: it is written to the slot
    /// that the stack pointer names, and the pointer moves up. No other slot
    /// changes.
    pub open spec fn pushed(self, value: u16) -> CpuState {
        CpuState {
            stack: self.stack.update(self.sp as int, value),
            sp: (self.sp + 1) as u8,
            ..self
        }
    }

    /// The state without the top of the stack: the pointer moves down, and
    /// every slot keeps what it holds.
    pub open spec fn popped(self) -> CpuState {
        CpuState { sp: (self.sp - 1) as u8, ..self }
    }
}

/// How `instr` ends when it is carried out in state `s`.
pub open spec fn outcome(s: CpuState, instr: Instruction) -> Result<Progress, Fault> {
    match instr {
        Instruction::Return => if s.sp == 0 {
            Err(Fault::StackUnderflow)
        } else {
            Ok(Progress::Completed)
        },
        Instruction::Call { .. } => if s.sp >= 16 {
            Err(Fault::StackOverflow)
        } else {
            Ok(Progress::Completed)
        },
        Instruction::WaitKey { .. } => if first_held(s.keys, 0) < 16 {
            Ok(Progress::Completed)
        } else {
            Ok(Progress::AwaitingKey)
        },
        _ => Ok(Progress::Completed),
    }
}

/// The state in which an instruction that steers the program leaves the
/// machine: see [`Instruction::is_control`].
pub open spec fn control_state(s: CpuState, instr: Instruction) -> CpuState {
    match instr {
        Instruction::ClearScreen => CpuState { pixels: blank(), ..s }.advanced(),
        Instruction::Return => if s.sp == 0 {
            s
        } else {
            CpuState { pc: wrap16(s.top() + 2), ..s.popped() }
        },
        Instruction::Jump { addr } => CpuState { pc: addr, ..s },
        Instruction::Call { addr } => if s.sp >= 16 {
            s
        } else {
            CpuState { pc: addr, ..s.pushed(s.pc) }
        },
        Instruction::SkipIfEqual { x, byte } => s.branched(s.v[x as int] == byte),
        Instruction::SkipIfNotEqual { x, byte } => s.branched(s.v[x as int] != byte),
        Instruction::SkipIfRegistersEqual { x, y } => s.branched(s.v[x as int] == s.v[y as int]),
        Instruction::SkipIfRegistersDiffer { x, y } => s.branched(s.v[x as int] != s.v[y as int]),
        Instruction::JumpOffset { addr } => CpuState { pc: wrap16(addr + s.v[0]), ..s },
        Instruction::SkipIfKeyHeld { x } => s.branched(key_held(s.keys, s.v[x as int])),
        Instruction::SkipIfKeyUp { x } => s.branched(!key_held(s.keys, s.v[x as int])),
        _ => s.advanced(),
    }
}

/// The value that an instruction which computes a register gives to `V[x]`:
/// see [`Instruction::is_arithmetic`].
pub open spec fn computed_value(v: Seq<u8>, instr: Instruction, random: u8) -> u8 {
    match instr {
        Instruction::Load { x, byte } => byte,
        Instruction::AddByte { x, byte } => wrap8(v[x as int] + byte),
        Instruction::Copy { x, y } => v[y as int],
        Instruction::Or { x, y } => v[x as int] | v[y as int],
        Instruction::And { x, y } => v[x as int] & v[y as int],
        Instruction::Xor { x, y } => v[x as int] ^ v[y as int],
        Instruction::Add { x, y } => wrap8(v[x as int] + v[y as int]),
        Instruction::Subtract { x, y } => wrap8(v[x as int] - v[y as int]),
        Instruction::ShiftRight { x } => (v[x as int] / 2) as u8,
        Instruction::SubtractFrom { x, y } => wrap8(v[y as int] - v[x as int]),
        Instruction::ShiftLeft { x } => wrap8(v[x as int] * 2),
        Instruction::Random { x, mask } => random & mask,
        _ => 0u8,
    }
}

/// The value that an instruction which computes a register gives to the
/// flag `VF`: the carry of an addition, the borrow of a subtraction, the bit
/// that a shift pushes out.
pub open spec fn computed_flag(v: Seq<u8>, instr: Instruction) -> u8 {
    match instr {
        Instruction::Add { x, y } => if v[x as int] + v[y as int] > 255 {
            1u8
        } else {
            0u8
        },
        Instruction::Subtract { x, y } => if v[x as int] < v[y as int] {
            1u8
        } else {
            0u8
        },
        Instruction::ShiftRight { x } => (v[x as int] % 2) as u8,
        Instruction::SubtractFrom { x, y } => if v[y as int] < v[x as int] {
            1u8
        } else {
            0u8
        },
        Instruction::ShiftLeft { x } => (v[x as int] / 128) as u8,
        _ => 0u8,
    }
}

/// The state in which an instruction that computes a register leaves the
/// machine. Additions and subtractions write the result and then the flag;
/// shifts write the flag and then the result; the others leave the flag
/// alone.
pub open spec fn arithmetic_state(s: CpuState, instr: Instruction, random: u8) -> CpuState {
    let value = computed_value(s.v, instr, random);
    let flag = computed_flag(s.v, instr);
    match instr {
        Instruction::Add { x, .. } | Instruction::Subtract { x, .. } | Instruction::SubtractFrom {
            x,
            ..
        } => s.with_result_then_flag(x, value, flag).advanced(),
        Instruction::ShiftRight { x } | Instruction::ShiftLeft { x } => s.with_flag_then_result(
            x,
            value,
            flag,
        ).advanced(),
        Instruction::Load { x, .. }
        | Instruction::AddByte { x, .. }
        | Instruction::Copy { x, .. }
        | Instruction::Or { x, .. }
        | Instruction::And { x, .. }
        | Instruction::Xor { x, .. }
        | Instruction::Random { x, .. } => s.with_register(x, value).advanced(),
        _ => s,
    }
}

/// The state in which an instruction that works on memory and the index
/// register leaves the machine: see [`Instruction::is_memory`].
pub open spec fn memory_state(s: CpuState, instr: Instruction) -> CpuState {
    match instr {
        Instruction::SetIndex { addr } => CpuState { i: addr, ..s }.advanced(),
        Instruction::AddToIndex { x } => CpuState { i: wrap16(s.i + s.v[x as int]), ..s }.advanced(),
        Instruction::Glyph { x } => CpuState { i: (s.v[x as int] * 5) as u16, ..s }.advanced(),
        Instruction::StoreDigits { x } => CpuState {
            memory: digits_stored(s.memory, s.i, s.v[x as int]),
            ..s
        }.advanced(),
        Instruction::StoreRegisters { x } => CpuState {
            memory: registers_stored(s.memory, s.v, s.i, x),
            i: wrap16(s.i + x),
            ..s
        }.advanced(),
        Instruction::LoadRegisters { x } => CpuState {
            v: registers_loaded(s.memory, s.v, s.i, x),
            i: wrap16(s.i + x),
            ..s
        }.advanced(),
        _ => s,
    }
}

/// The state in which an instruction that works on the framebuffer, the
/// delay timer, the keys or the diagnostics log leaves the machine.
pub open spec fn device_state(s: CpuState, instr: Instruction, elapsed_ms: nat) -> CpuState {
    match instr {
        Instruction::Draw { x, y, rows } => s.sprite_drawn(
            s.v[x as int],
            s.v[y as int],
            rows,
        ).advanced(),
        Instruction::ReadDelay { x } => s.with_register(x, decayed(s.delay, elapsed_ms)).advanced(),
        Instruction::WaitKey { x } => if first_held(s.keys, 0) < 16 {
            s.with_register(x, first_held(s.keys, 0) as u8).advanced()
        } else {
            s
        },
        Instruction::SetDelay { x } => CpuState { delay: s.v[x as int], ..s }.advanced(),
        Instruction::SetSound { x } => s.logged(
            Diagnostic::SoundNotImplemented { index: s.i },
        ).advanced(),
        Instruction::Unknown { opcode } => s.logged(
            Diagnostic::UnknownOpcode { index: s.i, opcode },
        ).advanced(),
        _ => s,
    }
}

/// The state in which `instr` leaves the machine when it is carried out in
/// state `s`. `random` is the byte that the random source yields for this
/// instruction, and `elapsed_ms` the time in milliseconds since the delay
/// timer was last set.
pub open spec fn next_state(s: CpuState, instr: Instruction, random: u8, elapsed_ms: nat) -> CpuState {
    if instr.is_control() {
        control_state(s, instr)
    } else if instr.is_arithmetic() {
        arithmetic_state(s, instr, random)
    } else if instr.is_memory() {
        memory_state(s, instr)
    } else {
        device_state(s, instr, elapsed_ms)
    }
}

} // verus!
