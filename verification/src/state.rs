//! The mathematical model of the machine, and the small types that the
//! processor reports with.

use vstd::prelude::*;

verus! {

/// Why an instruction could not be carried out. A faulting instruction
/// leaves the machine exactly as it found it.
#[derive(Clone, Copy, Debug, PartialEq, Eq, Structural)]
pub enum Fault {
    /// A call was made while the stack already held sixteen return addresses.
    StackOverflow,
    /// A return was made while the stack was empty.
    StackUnderflow,
}

/// How an instruction ended when it did not fault.
#[derive(Clone, Copy, Debug, PartialEq, Eq, Structural)]
pub enum Progress {
    /// The instruction took effect and the program counter moved on.
    Completed,
    /// The instruction waits for a key and none is held: nothing changed, and
    /// the same instruction is due again.
    AwaitingKey,
}

/// One entry of the diagnostics log.
#[derive(Clone, Copy, Debug, PartialEq, Eq, Structural)]
pub enum Diagnostic {
    /// A word that is no instruction was met; `index` is the index register
    /// at that moment.
    UnknownOpcode { index: u16, opcode: u16 },
    /// The sound timer was asked for; `index` is the index register at that
    /// moment.
    SoundNotImplemented { index: u16 },
}

/// The state of the machine as mathematics sees it.
#[verifier::ext_equal]
pub ghost struct CpuState {
    /// The index register `I`.
    pub i: u16,
    /// The program counter.
    pub pc: u16,
    /// The 4096 bytes of memory.
    pub memory: Seq<u8>,
    /// The sixteen registers `V0..VF`.
    pub v: Seq<u8>,
    /// The 2048 pixels, row by row; pixel `(x, y)` is at `x + 64 * y`.
    pub pixels: Seq<bool>,
    /// The sixteen slots of the stack. The first `sp` of them hold the
    /// pending return addresses, oldest first; the others hold whatever was
    /// last written there.
    pub stack: Seq<u16>,
    /// The stack pointer: how many return addresses are pending, which is
    /// also the slot that the next call writes.
    pub sp: u8,
    /// The value last stored in the delay timer.
    pub delay: u8,
    /// The sound timer.
    pub sound: u8,
    /// For each of the sixteen keys, whether it is held.
    pub keys: Seq<bool>,
    /// Whether the host has asked the run to end.
    pub halt: bool,
    /// The diagnostics logged so far, oldest first.
    pub log: Seq<Diagnostic>,
}

impl CpuState {
    /// The collections have their fixed sizes and the stack pointer does not
    /// point beyond the stack.
    pub open spec fn well_formed(self) -> bool {
        &&& self.memory.len() == 4096
        &&& self.v.len() == 16
        &&& self.pixels.len() == 2048
        &&& self.stack.len() == 16
        &&& self.sp <= 16
        &&& self.keys.len() == 16
    }
}

} // verus!
