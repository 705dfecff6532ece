//! The processor: its registers, memory, stack and framebuffer, and the
//! execution of instructions on them.

use vstd::prelude::*;
use crate::display::{blank, draw};
use crate::font::{FONT_SET, GLYPH_SIZE};
use crate::instruction::{decode, decoded, Instruction};
use crate::semantics::{
    arithmetic_state,
    cell,
    computed_flag,
    computed_value,
    control_state,
    device_state,
    digits_stored,
    first_held,
    key_held,
    memory_state,
    next_state,
    offset,
    outcome,
    program_loaded,
    registers_loaded,
    registers_stored,
    word_at,
    wrap16,
};
use crate::state::{CpuState, Diagnostic, Fault, Progress};
use crate::timer::DelayTimer;

verus! {

/// The processor and everything it owns.
pub struct Cpu {
    /// The index register `I`.
    pub i: u16,
    /// The program counter.
    pub pc: u16,
    /// Memory.
    pub memory: [u8; 4096],
    /// The registers `V0..VF`.
    pub v: [u8; 16],
    /// The framebuffer, row by row: pixel `(x, y)` is at `x + 64 * y`.
    pub d_buffer: [bool; 2048],
    /// The slots of the stack; the first `sp` of them hold the pending
    /// return addresses.
    pub stack: [u16; 16],
    /// The stack pointer: the number of return addresses held, which is also
    /// the slot that the next call writes.
    pub sp: u8,
    /// The delay timer.
    pub delay_timer: DelayTimer,
    /// The sound timer.
    pub sound_timer: u8,
    /// For each key, whether the host last reported it as held.
    pub keys: [bool; 16],
    /// Whether the host has asked the run to end.
    pub halt: bool,
    /// The diagnostics log.
    pub errors: Vec<Diagnostic>,
}

impl View for Cpu {
    type V = CpuState;

    open spec fn view(&self) -> CpuState {
        CpuState {
            i: self.i,
            pc: self.pc,
            memory: self.memory@,
            v: self.v@,
            pixels: self.d_buffer@,
            stack: self.stack@,
            sp: self.sp,
            delay: self.delay_timer.stored(),
            sound: self.sound_timer,
            keys: self.keys@,
            halt: self.halt,
            log: self.errors@,
        }
    }
}

/// Reads the instruction word at `index`: the byte there is the high byte,
/// the byte after it the low byte. Addresses are taken modulo 4096.
pub fn read_word(memory: &[u8; 4096], index: u16) -> (word: u16)
    ensures
        word == word_at(memory@, index),
{
    let high: u16 = memory[(index as usize) % 4096] as u16;
    let low: u16 = memory[(index as usize + 1) % 4096] as u16;
    assert((high << 8) | low == high * 256 + low) by (bit_vector)
        requires
            high < 256,
            low < 256,
    ;
    (high << 8) | low
}

/// `rand::random::<u8>()`: a byte from the thread's random number generator.
/// Which byte comes is a matter of chance, so nothing is claimed of it.
#[verifier::external_body]
fn random_byte() -> (byte: u8) {
    rand::random::<u8>()
}

/// Works out what an instruction that computes a register writes: the value
/// for `V[x]` and, where the instruction sets it, the flag for `VF`.
fn compute(v: &[u8; 16], instr: Instruction, random: u8) -> (r: (u8, u8))
    requires
        instr.well_formed(),
        instr.is_arithmetic(),
    ensures
        r.0 == computed_value(v@, instr, random),
        r.1 == computed_flag(v@, instr),
{
    match instr {
        Instruction::Load { byte, .. } => (byte, 0),
        Instruction::AddByte { x, byte } => (v[x as usize].wrapping_add(byte), 0),
        Instruction::Copy { y, .. } => (v[y as usize], 0),
        Instruction::Or { x, y } => (v[x as usize] | v[y as usize], 0),
        Instruction::And { x, y } => (v[x as usize] & v[y as usize], 0),
        Instruction::Xor { x, y } => (v[x as usize] ^ v[y as usize], 0),
        Instruction::Add { x, y } => {
            let vx: u8 = v[x as usize];
            let vy: u8 = v[y as usize];
            let carry: u8 = if vy > 255 - vx {
                1
            } else {
                0
            };
            (vx.wrapping_add(vy), carry)
        },
        Instruction::Subtract { x, y } => {
            let vx: u8 = v[x as usize];
            let vy: u8 = v[y as usize];
            let borrow: u8 = if vx < vy {
                1
            } else {
                0
            };
            (vx.wrapping_sub(vy), borrow)
        },
        Instruction::ShiftRight { x } => {
            let vx: u8 = v[x as usize];
            assert(vx >> 1 == vx / 2 && vx & 1 == vx % 2) by (bit_vector);
            (vx >> 1, vx & 1)
        },
        Instruction::SubtractFrom { x, y } => {
            let vx: u8 = v[x as usize];
            let vy: u8 = v[y as usize];
            let borrow: u8 = if vy < vx {
                1
            } else {
                0
            };
            (vy.wrapping_sub(vx), borrow)
        },
        Instruction::ShiftLeft { x } => {
            let vx: u8 = v[x as usize];
            assert(vx << 1 == (vx * 2) % 256 && (vx >> 7) & 1 == vx / 128) by (bit_vector);
            (vx << 1, (vx >> 7) & 1)
        },
        Instruction::Random { mask, .. } => (random & mask, 0),
        _ => (0, 0),
    }
}

/// Cell `a` lies `k` cells after address `i` exactly if the address `i + k`
/// falls on it.
proof fn lemma_offset(a: int, i: u16, k: int)
    requires
        0 <= a < 4096,
        0 <= k < 4096,
    ensures
        (offset(a, i) == k) == (a == cell(i + k)),
{
}

impl Cpu {
    /// The stack pointer does not point beyond the stack. Every slot that a
    /// call writes or a return reads is then one of the sixteen.
    pub open spec fn well_formed(&self) -> bool {
        self.sp <= 16
    }

    /// A processor with everything zero. It holds no font and no program
    /// yet: see [`Cpu::reset`].
    pub fn new() -> (cpu: Cpu)
        ensures
            cpu.well_formed(),
            cpu@ == CpuState::fresh(),
    {
        let cpu = Cpu {
            i: 0,
            pc: 0,
            memory: [0u8;4096],
            v: [0u8;16],
            d_buffer: [false;2048],
            stack: [0u16;16],
            sp: 0,
            delay_timer: DelayTimer::new(),
            sound_timer: 0,
            keys: [false;16],
            halt: false,
            errors: Vec::new(),
        };
        assert(cpu@ =~= CpuState::fresh());
        cpu
    }

    /// Re-initialises the processor: the font is loaded, the program counter
    /// is put at the start of the program area and everything else is
    /// zeroed. The key states and the diagnostics log stay.
    pub fn reset(&mut self)
        ensures
            final(self).well_formed(),
            final(self)@ == old(self)@.reset(),
    {
        self.i = 0;
        self.pc = 0x200;
        self.memory = [0u8;4096];
        self.v = [0u8;16];
        self.stack = [0u16;16];
        self.d_buffer = [false;2048];
        self.sp = 0;
        self.delay_timer.set_value(0);
        self.sound_timer = 0;
        let mut k: usize = 0;
        while k < 80
            invariant
                k <= 80,
                forall|a: int| 0 <= a < k ==> self.memory@[a] == FONT_SET@[a],
                forall|a: int| k <= a < 4096 ==> self.memory@[a] == 0,
                self.i == 0,
                self.pc == 0x200,
                self.sp == 0,
                self.sound_timer == 0,
                self.delay_timer.stored() == 0,
                self.v@ =~= Seq::new(16, |j: int| 0u8),
                self.stack@ =~= Seq::new(16, |j: int| 0u16),
                self.d_buffer@ =~= blank(),
                self.keys == old(self).keys,
                self.errors == old(self).errors,
            decreases 80 - k,
        {
            self.memory[k] = FONT_SET[k];
            k += 1;
        }
        self.halt = false;
        assert(self@ =~= old(self)@.reset());
    }

    /// Puts `value` on the stack. A full stack refuses it and stays as it is.
    pub fn stack_push(&mut self, value: u16) -> (r: Result<(), Fault>)
        requires
            old(self).well_formed(),
        ensures
            final(self).well_formed(),
            final(self).delay_timer == old(self).delay_timer,
            match r {
                Ok(_) => old(self)@.sp < 16 && final(self)@ == old(self)@.pushed(value),
                Err(fault) => fault == Fault::StackOverflow && old(self)@.sp == 16 && *final(self)
                    == *old(self),
            },
    {
        if self.sp >= 16 {
            return Err(Fault::StackOverflow);
        }
        self.stack[self.sp as usize] = value;
        self.sp += 1;
        assert(self@ =~= old(self)@.pushed(value));
        Ok(())
    }

    /// Takes the most recent value off the stack. An empty stack has none to
    /// give and stays as it is.
    pub fn stack_pop(&mut self) -> (r: Result<u16, Fault>)
        requires
            old(self).well_formed(),
        ensures
            final(self).well_formed(),
            final(self).delay_timer == old(self).delay_timer,
            match r {
                Ok(value) => old(self)@.sp > 0 && value == old(self)@.top() && final(self)@
                    == old(self)@.popped(),
                Err(fault) => fault == Fault::StackUnderflow && old(self)@.sp == 0 && *final(self)
                    == *old(self),
            },
    {
        if self.sp == 0 {
            return Err(Fault::StackUnderflow);
        }
        self.sp -= 1;
        let value: u16 = self.stack[self.sp as usize];
        assert(self@ =~= old(self)@.popped());
        Ok(value)
    }

    /// Whether the key numbered `key` is held. Numbers from 16 on name no
    /// key and are never held.
    pub fn is_pressed(&self, key: u8) -> (held: bool)
        ensures
            held == key_held(self@.keys, key),
    {
        key < 16 && self.keys[key as usize]
    }

    /// The lowest-numbered key that is held, if any is.
    pub fn pressed_key(&self) -> (key: Option<u8>)
        ensures
            match key {
                Some(k) => k < 16 && k == first_held(self@.keys, 0),
                None => first_held(self@.keys, 0) == 16,
            },
    {
        let mut k: u8 = 0;
        while k < 16
            invariant
                k <= 16,
                first_held(self.keys@, 0) == first_held(self.keys@, k as int),
            decreases 16 - k,
        {
            if self.keys[k as usize] {
                return Some(k);
            }
            k += 1;
        }
        None
    }

    /// Stores the number of the lowest-numbered held key in `V[reg_x]`. If
    /// no key is held, nothing changes and the wait goes on.
    pub fn wait_for_key_press(&mut self, reg_x: usize) -> (progress: Progress)
        requires
            reg_x < 16,
        ensures
            final(self).delay_timer == old(self).delay_timer,
            if first_held(old(self)@.keys, 0) < 16 {
                progress == Progress::Completed && final(self)@ == old(self)@.with_register(
                    reg_x as u8,
                    first_held(old(self)@.keys, 0) as u8,
                )
            } else {
                progress == Progress::AwaitingKey && *final(self) == *old(self)
            },
    {
        match self.pressed_key() {
            Some(key) => {
                self.v[reg_x] = key;
                assert(self@ =~= old(self)@.with_register(reg_x as u8, key));
                Progress::Completed
            },
            None => Progress::AwaitingKey,
        }
    }

    /// Draws the sprite of `height` rows that `I` points at with its top
    /// left corner at `(x, y)`. `VF` becomes 1 if that turned off a pixel
    /// that was on, and keeps its value otherwise.
    pub fn draw_sprite(&mut self, x: u8, y: u8, height: u8)
        ensures
            final(self).delay_timer == old(self).delay_timer,
            final(self)@ == old(self)@.sprite_drawn(x, y, height),
    {
        let erased: bool = draw(&mut self.d_buffer, &self.memory, self.i, x, y, height);
        if erased {
            self.v[0xF] = 1;
        }
        assert(self@ =~= old(self)@.sprite_drawn(x, y, height));
    }

    /// Moves the program counter past the next instruction if `skip` holds,
    /// and onto it otherwise.
    fn branch(&mut self, skip: bool)
        ensures
            *final(self) == (Cpu { pc: final(self).pc, ..*old(self) }),
            final(self)@ == old(self)@.branched(skip),
    {
        if skip {
            self.pc = self.pc.wrapping_add(4);
        } else {
            self.pc = self.pc.wrapping_add(2);
        }
    }

    /// Sets `V[x]` and moves on to the next instruction.
    fn assign(&mut self, x: u8, value: u8)
        requires
            x < 16,
        ensures
            final(self).delay_timer == old(self).delay_timer,
            final(self)@ == old(self)@.with_register(x, value).advanced(),
    {
        self.v[x as usize] = value;
        self.pc = self.pc.wrapping_add(2);
        assert(self@ =~= old(self)@.with_register(x, value).advanced());
    }

    /// Sets `V[x]`, then `VF`, and moves on to the next instruction.
    fn assign_then_flag(&mut self, x: u8, value: u8, flag: u8)
        requires
            x < 16,
        ensures
            final(self).delay_timer == old(self).delay_timer,
            final(self)@ == old(self)@.with_result_then_flag(x, value, flag).advanced(),
    {
        self.v[x as usize] = value;
        self.v[0xF] = flag;
        self.pc = self.pc.wrapping_add(2);
        assert(self@ =~= old(self)@.with_result_then_flag(x, value, flag).advanced());
    }

    /// Sets `VF`, then `V[x]`, and moves on to the next instruction.
    fn flag_then_assign(&mut self, x: u8, value: u8, flag: u8)
        requires
            x < 16,
        ensures
            final(self).delay_timer == old(self).delay_timer,
            final(self)@ == old(self)@.with_flag_then_result(x, value, flag).advanced(),
    {
        self.v[0xF] = flag;
        self.v[x as usize] = value;
        self.pc = self.pc.wrapping_add(2);
        assert(self@ =~= old(self)@.with_flag_then_result(x, value, flag).advanced());
    }

    /// Appends `entry` to the diagnostics log and moves on to the next
    /// instruction.
    fn report(&mut self, entry: Diagnostic)
        ensures
            final(self).delay_timer == old(self).delay_timer,
            final(self)@ == old(self)@.logged(entry).advanced(),
    {
        self.errors.push(entry);
        self.pc = self.pc.wrapping_add(2);
        assert(self@ =~= old(self)@.logged(entry).advanced());
    }

    /// Carries out an instruction that only steers the program: jumps,
    /// calls, returns, skips, and the clearing of the screen.
    fn execute_control(&mut self, instr: Instruction) -> (r: Result<Progress, Fault>)
        requires
            old(self).well_formed(),
            instr.well_formed(),
            instr.is_control(),
        ensures
            final(self).well_formed(),
            final(self).delay_timer == old(self).delay_timer,
            r == outcome(old(self)@, instr),
            final(self)@ == control_state(old(self)@, instr),
    {
        match instr {
            Instruction::Nop => {
                self.pc = self.pc.wrapping_add(2);
            },
            Instruction::ClearScreen => {
                self.d_buffer = [false;2048];
                self.pc = self.pc.wrapping_add(2);
                assert(self@ =~= (CpuState { pixels: blank(), ..old(self)@ }).advanced());
            },
            Instruction::Return => {
                match self.stack_pop() {
                    Ok(addr) => {
                        self.pc = addr.wrapping_add(2);
                    },
                    Err(fault) => {
                        return Err(fault);
                    },
                }
            },
            Instruction::Jump { addr } => {
                self.pc = addr;
            },
            Instruction::Call { addr } => {
                let from: u16 = self.pc;
                match self.stack_push(from) {
                    Ok(_) => {
                        self.pc = addr;
                    },
                    Err(fault) => {
                        return Err(fault);
                    },
                }
            },
            Instruction::SkipIfEqual { x, byte } => {
                let skip: bool = self.v[x as usize] == byte;
                self.branch(skip);
            },
            Instruction::SkipIfNotEqual { x, byte } => {
                let skip: bool = self.v[x as usize] != byte;
                self.branch(skip);
            },
            Instruction::SkipIfRegistersEqual { x, y } => {
                let skip: bool = self.v[x as usize] == self.v[y as usize];
                self.branch(skip);
            },
            Instruction::SkipIfRegistersDiffer { x, y } => {
                let skip: bool = self.v[x as usize] != self.v[y as usize];
                self.branch(skip);
            },
            Instruction::JumpOffset { addr } => {
                self.pc = addr + self.v[0] as u16;
            },
            Instruction::SkipIfKeyHeld { x } => {
                let skip: bool = self.is_pressed(self.v[x as usize]);
                self.branch(skip);
            },
            Instruction::SkipIfKeyUp { x } => {
                let skip: bool = !self.is_pressed(self.v[x as usize]);
                self.branch(skip);
            },
            _ => {},
        }
        Ok(Progress::Completed)
    }

    /// Carries out an instruction that computes a register from registers,
    /// from an operand or from the random byte.
    fn execute_arithmetic(&mut self, instr: Instruction, random: u8)
        requires
            instr.well_formed(),
            instr.is_arithmetic(),
        ensures
            final(self).delay_timer == old(self).delay_timer,
            final(self)@ == arithmetic_state(old(self)@, instr, random),
    {
        let (value, flag) = compute(&self.v, instr, random);
        match instr {
            Instruction::Add { x, .. }
            | Instruction::Subtract { x, .. }
            | Instruction::SubtractFrom { x, .. } => {
                self.assign_then_flag(x, value, flag);
            },
            Instruction::ShiftRight { x } | Instruction::ShiftLeft { x } => {
                self.flag_then_assign(x, value, flag);
            },
            Instruction::Load { x, .. }
            | Instruction::AddByte { x, .. }
            | Instruction::Copy { x, .. }
            | Instruction::Or { x, .. }
            | Instruction::And { x, .. }
            | Instruction::Xor { x, .. }
            | Instruction::Random { x, .. } => {
                self.assign(x, value);
            },
            _ => {},
        }
    }

    /// Carries out an instruction that works on memory and the index
    /// register.
    fn execute_memory(&mut self, instr: Instruction)
        requires
            instr.well_formed(),
            instr.is_memory(),
        ensures
            final(self).delay_timer == old(self).delay_timer,
            final(self)@ == memory_state(old(self)@, instr),
    {
        match instr {
            Instruction::SetIndex { addr } => {
                self.point(addr);
            },
            Instruction::AddToIndex { x } => {
                let to: u16 = self.i.wrapping_add(self.v[x as usize] as u16);
                self.point(to);
            },
            Instruction::Glyph { x } => {
                let to: u16 = self.v[x as usize] as u16 * GLYPH_SIZE as u16;
                self.point(to);
            },
            Instruction::StoreDigits { x } => {
                let vx: u8 = self.v[x as usize];
                self.store_digits(vx);
            },
            Instruction::StoreRegisters { x } => {
                self.store_registers(x);
            },
            Instruction::LoadRegisters { x } => {
                self.load_registers(x);
            },
            _ => {},
        }
    }

    /// Carries out an instruction that works on the framebuffer, the delay
    /// timer, the keys or the diagnostics log.
    fn execute_device(&mut self, instr: Instruction, elapsed_ms: u128) -> (r: Result<
        Progress,
        Fault,
    >)
        requires
            instr.well_formed(),
            !instr.is_control(),
            !instr.is_arithmetic(),
            !instr.is_memory(),
        ensures
            !(instr is SetDelay) ==> final(self).delay_timer == old(self).delay_timer,
            r == outcome(old(self)@, instr),
            final(self)@ == device_state(old(self)@, instr, elapsed_ms as nat),
    {
        match instr {
            Instruction::Draw { x, y, rows } => {
                let vx: u8 = self.v[x as usize];
                let vy: u8 = self.v[y as usize];
                self.draw_sprite(vx, vy, rows);
                self.pc = self.pc.wrapping_add(2);
            },
            Instruction::ReadDelay { x } => {
                let value: u8 = self.delay_timer.value_after(elapsed_ms);
                self.assign(x, value);
            },
            Instruction::WaitKey { x } => {
                match self.wait_for_key_press(x as usize) {
                    Progress::Completed => {
                        self.pc = self.pc.wrapping_add(2);
                    },
                    Progress::AwaitingKey => {
                        return Ok(Progress::AwaitingKey);
                    },
                }
            },
            Instruction::SetDelay { x } => {
                let value: u8 = self.v[x as usize];
                self.delay_timer.set_value(value);
                self.pc = self.pc.wrapping_add(2);
            },
            Instruction::SetSound { x } => {
                self.report(Diagnostic::SoundNotImplemented { index: self.i });
            },
            Instruction::Unknown { opcode } => {
                self.report(Diagnostic::UnknownOpcode { index: self.i, opcode });
            },
            _ => {},
        }
        Ok(Progress::Completed)
    }

    /// Carries out one decoded instruction. `random` is the byte to use if
    /// the instruction asks for a random one, and `elapsed_ms` the time in
    /// milliseconds since the delay timer was last set, to use if the
    /// instruction reads the timer.
    ///
    /// A call on a full stack and a return on an empty one are faults; a
    /// wait for a key while none is held makes no progress. In all three
    /// cases the processor is left as it was.
    pub fn execute(&mut self, instr: Instruction, random: u8, elapsed_ms: u128) -> (r: Result<
        Progress,
        Fault,
    >)
        requires
            old(self).well_formed(),
            instr.well_formed(),
        ensures
            final(self).well_formed(),
            !(instr is SetDelay) ==> final(self).delay_timer == old(self).delay_timer,
            r == outcome(old(self)@, instr),
            final(self)@ == next_state(old(self)@, instr, random, elapsed_ms as nat),
    {
        match instr {
            Instruction::Nop
            | Instruction::ClearScreen
            | Instruction::Return
            | Instruction::Jump { .. }
            | Instruction::Call { .. }
            | Instruction::SkipIfEqual { .. }
            | Instruction::SkipIfNotEqual { .. }
            | Instruction::SkipIfRegistersEqual { .. }
            | Instruction::SkipIfRegistersDiffer { .. }
            | Instruction::JumpOffset { .. }
            | Instruction::SkipIfKeyHeld { .. }
            | Instruction::SkipIfKeyUp { .. } => self.execute_control(instr),
            Instruction::Load { .. }
            | Instruction::AddByte { .. }
            | Instruction::Copy { .. }
            | Instruction::Or { .. }
            | Instruction::And { .. }
            | Instruction::Xor { .. }
            | Instruction::Add { .. }
            | Instruction::Subtract { .. }
            | Instruction::ShiftRight { .. }
            | Instruction::SubtractFrom { .. }
            | Instruction::ShiftLeft { .. }
            | Instruction::Random { .. } => {
                self.execute_arithmetic(instr, random);
                Ok(Progress::Completed)
            },
            Instruction::SetIndex { .. }
            | Instruction::AddToIndex { .. }
            | Instruction::Glyph { .. }
            | Instruction::StoreDigits { .. }
            | Instruction::StoreRegisters { .. }
            | Instruction::LoadRegisters { .. } => {
                self.execute_memory(instr);
                Ok(Progress::Completed)
            },
            _ => self.execute_device(instr, elapsed_ms),
        }
    }

    /// Decodes the instruction word `opcode` and carries it out: see
    /// [`Cpu::execute`].
    pub fn process_opcode(&mut self, opcode: u16, random: u8, elapsed_ms: u128) -> (r: Result<
        Progress,
        Fault,
    >)
        requires
            old(self).well_formed(),
        ensures
            final(self).well_formed(),
            !(decoded(opcode) is SetDelay) ==> final(self).delay_timer == old(self).delay_timer,
            r == outcome(old(self)@, decoded(opcode)),
            final(self)@ == next_state(old(self)@, decoded(opcode), random, elapsed_ms as nat),
    {
        let instr: Instruction = decode(opcode);
        self.execute(instr, random, elapsed_ms)
    }

    /// Runs one cycle: reads the instruction word at the program counter,
    /// decodes it and carries it out. An instruction that asks for a random
    /// byte gets one from the random source, and one that reads the delay
    /// timer gets the time from the clock; what those two yield is not known
    /// beforehand, so the new state is only known to be the one that
    /// [`next_state`] gives for some byte and some elapsed time.
    pub fn execute_cycle(&mut self) -> (r: Result<Progress, Fault>)
        requires
            old(self).well_formed(),
        ensures
            final(self).well_formed(),
            !(decoded(word_at(old(self)@.memory, old(self)@.pc)) is SetDelay)
                ==> final(self).delay_timer == old(self).delay_timer,
            r == outcome(old(self)@, decoded(word_at(old(self)@.memory, old(self)@.pc))),
            exists|random: u8, elapsed_ms: nat|
                final(self)@ == #[trigger] next_state(
                    old(self)@,
                    decoded(word_at(old(self)@.memory, old(self)@.pc)),
                    random,
                    elapsed_ms,
                ),
    {
        let opcode: u16 = read_word(&self.memory, self.pc);
        let instr: Instruction = decode(opcode);
        let random: u8 = match instr {
            Instruction::Random { .. } => random_byte(),
            _ => 0,
        };
        let elapsed_ms: u128 = match instr {
            Instruction::ReadDelay { .. } => self.delay_timer.elapsed_millis(),
            _ => 0,
        };
        let r = self.execute(instr, random, elapsed_ms);
        assert(self@ == next_state(old(self)@, instr, random, elapsed_ms as nat));
        r
    }

    /// Places the program `rom` in memory from address `0x200` on and puts
    /// the program counter on its first instruction. The program must fit
    /// between that address and the end of memory.
    pub fn load_rom(&mut self, rom: &[u8])
        requires
            rom@.len() <= 4096 - 0x200,
        ensures
            final(self).delay_timer == old(self).delay_timer,
            final(self)@ == (CpuState {
                memory: program_loaded(old(self)@.memory, rom@),
                pc: 0x200,
                ..old(self)@
            }),
    {
        let mut k: usize = 0;
        while k < rom.len()
            invariant
                k <= rom@.len() <= 4096 - 0x200,
                *self == (Cpu { memory: self.memory, ..*old(self) }),
                forall|a: int|
                    0 <= a < 4096 ==> self.memory@[a] == if 0x200 <= a < 0x200 + k {
                        rom@[a - 0x200]
                    } else {
                        old(self).memory@[a]
                    },
            decreases rom@.len() - k,
        {
            self.memory[0x200 + k] = rom[k];
            k += 1;
        }
        self.pc = 0x200;
        assert(self@ =~= (CpuState {
            memory: program_loaded(old(self)@.memory, rom@),
            pc: 0x200,
            ..old(self)@
        }));
    }

    /// Takes note of whether the host has asked the run to end. Once it has,
    /// the processor stays halted whatever is reported later.
    pub fn note_exit_signal(&mut self, raised: bool)
        ensures
            final(self).delay_timer == old(self).delay_timer,
            final(self)@ == (CpuState { halt: old(self)@.halt || raised, ..old(self)@ }),
    {
        if raised {
            self.halt = true;
        }
    }

    /// Sets `I` and moves on to the next instruction.
    fn point(&mut self, to: u16)
        ensures
            final(self).delay_timer == old(self).delay_timer,
            final(self)@ == (CpuState { i: to, ..old(self)@ }).advanced(),
    {
        self.i = to;
        self.pc = self.pc.wrapping_add(2);
    }

    /// Stores the decimal digits of `value` at `I`, `I+1`, `I+2` and moves
    /// on to the next instruction.
    fn store_digits(&mut self, value: u8)
        ensures
            final(self).delay_timer == old(self).delay_timer,
            final(self)@ == (CpuState {
                memory: digits_stored(old(self)@.memory, old(self)@.i, value),
                ..old(self)@
            }).advanced(),
    {
        let at: usize = self.i as usize;
        self.memory[at % 4096] = value / 100;
        self.memory[(at + 1) % 4096] = (value / 10) % 10;
        self.memory[(at + 2) % 4096] = value % 10;
        self.pc = self.pc.wrapping_add(2);
        assert(self.memory@ =~= digits_stored(old(self).memory@, old(self).i, value));
    }

    /// Stores `V[0..=x]` at `I`, `I+1`, ..., adds `x` to `I` and moves on to
    /// the next instruction.
    fn store_registers(&mut self, x: u8)
        requires
            x < 16,
        ensures
            final(self).delay_timer == old(self).delay_timer,
            final(self)@ == (CpuState {
                memory: registers_stored(old(self)@.memory, old(self)@.v, old(self)@.i, x),
                i: wrap16(old(self)@.i + x),
                ..old(self)@
            }).advanced(),
    {
        let ghost before = self.memory@;
        let mut k: u8 = 0;
        while k <= x
            invariant
                k <= x + 1,
                x < 16,
                *self == (Cpu { memory: self.memory, ..*old(self) }),
                forall|a: int|
                    0 <= a < 4096 ==> self.memory@[a] == if offset(a, self.i) < k {
                        self.v@[offset(a, self.i)]
                    } else {
                        before[a]
                    },
            decreases x + 1 - k,
        {
            proof {
                assert forall|a: int| 0 <= a < 4096 implies (#[trigger] offset(a, self.i) == k) == (
                a == cell(self.i + k)) by {
                    lemma_offset(a, self.i, k as int);
                }
            }
            self.memory[(self.i as usize + k as usize) % 4096] = self.v[k as usize];
            k += 1;
        }
        assert(self.memory@ =~= registers_stored(before, self.v@, self.i, x));
        self.i = self.i.wrapping_add(x as u16);
        self.pc = self.pc.wrapping_add(2);
    }

    /// Loads `V[0..=x]` from `I`, `I+1`, ..., adds `x` to `I` and moves on
    /// to the next instruction.
    fn load_registers(&mut self, x: u8)
        requires
            x < 16,
        ensures
            final(self).delay_timer == old(self).delay_timer,
            final(self)@ == (CpuState {
                v: registers_loaded(old(self)@.memory, old(self)@.v, old(self)@.i, x),
                i: wrap16(old(self)@.i + x),
                ..old(self)@
            }).advanced(),
    {
        let ghost before = self.v@;
        let mut k: u8 = 0;
        while k <= x
            invariant
                k <= x + 1,
                x < 16,
                *self == (Cpu { v: self.v, ..*old(self) }),
                forall|j: int|
                    0 <= j < 16 ==> self.v@[j] == if j < k {
                        self.memory@[cell(self.i + j)]
                    } else {
                        before[j]
                    },
            decreases x + 1 - k,
        {
            self.v[k as usize] = self.memory[(self.i as usize + k as usize) % 4096];
            k += 1;
        }
        assert(self.v@ =~= registers_loaded(self.memory@, before, self.i, x));
        self.i = self.i.wrapping_add(x as u16);
        self.pc = self.pc.wrapping_add(2);
    }
}

} // verus!
