//! Instruction words and their decoding.
//!
//! An instruction is one 16-bit word. Its four nibbles are read as a family
//! (bits 12-15), a register index `x` (bits 8-11), a register index `y`
//! (bits 4-7) and a short operand `n` (bits 0-3); the low byte is the operand
//! `nn` and the low twelve bits are the address `nnn`.

use vstd::prelude::*;

verus! {

/// One decoded instruction. Register indices are below 16, addresses below
/// 4096 and row counts below 16 whenever the value came out of [`decode`].
#[derive(Clone, Copy, Debug, PartialEq, Eq, Structural)]
pub enum Instruction {
    /// `0000`: does nothing.
    Nop,
    /// `00E0`: turns every pixel off.
    ClearScreen,
    /// `00EE`: returns from the innermost pending call.
    Return,
    /// `1nnn`: continues at `addr`.
    Jump { addr: u16 },
    /// `2nnn`: calls the subroutine at `addr`.
    Call { addr: u16 },
    /// `3xnn`: skips the next instruction if `V[x] == byte`.
    SkipIfEqual { x: u8, byte: u8 },
    /// `4xnn`: skips the next instruction if `V[x] != byte`.
    SkipIfNotEqual { x: u8, byte: u8 },
    /// `5xy0`: skips the next instruction if `V[x] == V[y]`.
    SkipIfRegistersEqual { x: u8, y: u8 },
    /// `6xnn`: `V[x] = byte`.
    Load { x: u8, byte: u8 },
    /// `7xnn`: `V[x] = V[x] + byte` modulo 256, flag untouched.
    AddByte { x: u8, byte: u8 },
    /// `8xy0`: `V[x] = V[y]`.
    Copy { x: u8, y: u8 },
    /// `8xy1`: `V[x] = V[x] | V[y]`.
    Or { x: u8, y: u8 },
    /// `8xy2`: `V[x] = V[x] & V[y]`.
    And { x: u8, y: u8 },
    /// `8xy3`: `V[x] = V[x] ^ V[y]`.
    Xor { x: u8, y: u8 },
    /// `8xy4`: `V[x] = V[x] + V[y]` modulo 256, `VF` = carry.
    Add { x: u8, y: u8 },
    /// `8xy5`: `V[x] = V[x] - V[y]` modulo 256, `VF` = borrow.
    Subtract { x: u8, y: u8 },
    /// `8xy6`: `VF` = lowest bit of `V[x]`, `V[x]` halved.
    ShiftRight { x: u8 },
    /// `8xy7`: `V[x] = V[y] - V[x]` modulo 256, `VF` = borrow.
    SubtractFrom { x: u8, y: u8 },
    /// `8xyE`: `VF` = highest bit of `V[x]`, `V[x]` doubled modulo 256.
    ShiftLeft { x: u8 },
    /// `9xy0`: skips the next instruction if `V[x] != V[y]`.
    SkipIfRegistersDiffer { x: u8, y: u8 },
    /// `Annn`: `I = addr`.
    SetIndex { addr: u16 },
    /// `Bnnn`: continues at `addr + V[0]`.
    JumpOffset { addr: u16 },
    /// `Cxnn`: `V[x] = random & mask`.
    Random { x: u8, mask: u8 },
    /// `Dxyn`: draws the `rows`-byte sprite at `I` at `(V[x], V[y])`.
    Draw { x: u8, y: u8, rows: u8 },
    /// `Ex9E`: skips the next instruction if key `V[x]` is held.
    SkipIfKeyHeld { x: u8 },
    /// `ExA1`: skips the next instruction if key `V[x]` is not held.
    SkipIfKeyUp { x: u8 },
    /// `Fx07`: `V[x]` = current value of the delay timer.
    ReadDelay { x: u8 },
    /// `Fx0A`: waits for a key and stores its number in `V[x]`.
    WaitKey { x: u8 },
    /// `Fx15`: sets the delay timer to `V[x]`.
    SetDelay { x: u8 },
    /// `Fx18`: asks for the sound timer to be set; no sound exists.
    SetSound { x: u8 },
    /// `Fx1E`: `I = I + V[x]` modulo 65536.
    AddToIndex { x: u8 },
    /// `Fx29`: `I` = address of the glyph for digit `V[x]`.
    Glyph { x: u8 },
    /// `Fx33`: stores the three decimal digits of `V[x]` at `I`, `I+1`, `I+2`.
    StoreDigits { x: u8 },
    /// `Fx55`: stores `V[0..=x]` at `I..`, then `I = I + x`.
    StoreRegisters { x: u8 },
    /// `Fx65`: loads `V[0..=x]` from `I..`, then `I = I + x`.
    LoadRegisters { x: u8 },
    /// Any other word.
    Unknown { opcode: u16 },
}

/// Bits 12-15 of an instruction word.
pub open spec fn family_of(opcode: u16) -> u8 {
    (opcode / 4096) as u8
}

/// Bits 8-11 of an instruction word: the register index `x`.
pub open spec fn x_of(opcode: u16) -> u8 {
    ((opcode / 256) % 16) as u8
}

/// Bits 4-7 of an instruction word: the register index `y`.
pub open spec fn y_of(opcode: u16) -> u8 {
    ((opcode / 16) % 16) as u8
}

/// Bits 0-3 of an instruction word.
pub open spec fn n_of(opcode: u16) -> u8 {
    (opcode % 16) as u8
}

/// Bits 0-7 of an instruction word.
pub open spec fn nn_of(opcode: u16) -> u8 {
    (opcode % 256) as u8
}

/// Bits 0-11 of an instruction word.
pub open spec fn nnn_of(opcode: u16) -> u16 {
    (opcode % 4096) as u16
}

/// Meaning of the arithmetic family `8xy_`, selected by the low nibble.
pub open spec fn decoded_arithmetic(opcode: u16) -> Instruction {
    let x = x_of(opcode);
    let y = y_of(opcode);
    let n = n_of(opcode);
    if n == 0x0 {
        Instruction::Copy { x, y }
    } else if n == 0x1 {
        Instruction::Or { x, y }
    } else if n == 0x2 {
        Instruction::And { x, y }
    } else if n == 0x3 {
        Instruction::Xor { x, y }
    } else if n == 0x4 {
        Instruction::Add { x, y }
    } else if n == 0x5 {
        Instruction::Subtract { x, y }
    } else if n == 0x6 {
        Instruction::ShiftRight { x }
    } else if n == 0x7 {
        Instruction::SubtractFrom { x, y }
    } else if n == 0xE {
        Instruction::ShiftLeft { x }
    } else {
        Instruction::Unknown { opcode }
    }
}

/// Meaning of the family `Fx__`, selected by the low byte.
pub open spec fn decoded_misc(opcode: u16) -> Instruction {
    let x = x_of(opcode);
    let nn = nn_of(opcode);
    if nn == 0x07 {
        Instruction::ReadDelay { x }
    } else if nn == 0x0A {
        Instruction::WaitKey { x }
    } else if nn == 0x15 {
        Instruction::SetDelay { x }
    } else if nn == 0x18 {
        Instruction::SetSound { x }
    } else if nn == 0x1E {
        Instruction::AddToIndex { x }
    } else if nn == 0x29 {
        Instruction::Glyph { x }
    } else if nn == 0x33 {
        Instruction::StoreDigits { x }
    } else if nn == 0x55 {
        Instruction::StoreRegisters { x }
    } else if nn == 0x65 {
        Instruction::LoadRegisters { x }
    } else {
        Instruction::Unknown { opcode }
    }
}

/// The instruction that a word stands for. Every word that matches no
/// pattern of the instruction set is `Unknown` and keeps the word.
pub open spec fn decoded(opcode: u16) -> Instruction {
    let family = family_of(opcode);
    let x = x_of(opcode);
    let y = y_of(opcode);
    let n = n_of(opcode);
    let nn = nn_of(opcode);
    let nnn = nnn_of(opcode);
    if family == 0x0 {
        if opcode == 0x0000 {
            Instruction::Nop
        } else if opcode == 0x00E0 {
            Instruction::ClearScreen
        } else if opcode == 0x00EE {
            Instruction::Return
        } else {
            Instruction::Unknown { opcode }
        }
    } else if family == 0x1 {
        Instruction::Jump { addr: nnn }
    } else if family == 0x2 {
        Instruction::Call { addr: nnn }
    } else if family == 0x3 {
        Instruction::SkipIfEqual { x, byte: nn }
    } else if family == 0x4 {
        Instruction::SkipIfNotEqual { x, byte: nn }
    } else if family == 0x5 {
        if n == 0 {
            Instruction::SkipIfRegistersEqual { x, y }
        } else {
            Instruction::Unknown { opcode }
        }
    } else if family == 0x6 {
        Instruction::Load { x, byte: nn }
    } else if family == 0x7 {
        Instruction::AddByte { x, byte: nn }
    } else if family == 0x8 {
        decoded_arithmetic(opcode)
    } else if family == 0x9 {
        if n == 0 {
            Instruction::SkipIfRegistersDiffer { x, y }
        } else {
            Instruction::Unknown { opcode }
        }
    } else if family == 0xA {
        Instruction::SetIndex { addr: nnn }
    } else if family == 0xB {
        Instruction::JumpOffset { addr: nnn }
    } else if family == 0xC {
        Instruction::Random { x, mask: nn }
    } else if family == 0xD {
        Instruction::Draw { x, y, rows: n }
    } else if family == 0xE {
        if nn == 0x9E {
            Instruction::SkipIfKeyHeld { x }
        } else if nn == 0xA1 {
            Instruction::SkipIfKeyUp { x }
        } else {
            Instruction::Unknown { opcode }
        }
    } else {
        decoded_misc(opcode)
    }
}

impl Instruction {
    /// Whether the instruction only steers the program: it jumps, calls,
    /// returns, skips, clears the screen or does nothing.
    pub open spec fn is_control(self) -> bool {
        match self {
            Instruction::Nop
            | Instruction::ClearScreen
            | Instruction::Return
            | Instruction::Jump { .. }
            | Instruction::Call { .. }
            | Instruction::SkipIfEqual { .. }
            | Instruction::SkipIfNotEqual { .. }
            | Instruction::SkipIfRegistersEqual { .. }
            | Instruction::SkipIfRegistersDiffer { .. }
            | Instruction::JumpOffset { .. }
            | Instruction::SkipIfKeyHeld { .. }
            | Instruction::SkipIfKeyUp { .. } => true,
            _ => false,
        }
    }

    /// Whether the instruction computes a register from registers, from an
    /// operand or from the random byte.
    pub open spec fn is_arithmetic(self) -> bool {
        match self {
            Instruction::Load { .. }
            | Instruction::AddByte { .. }
            | Instruction::Copy { .. }
            | Instruction::Or { .. }
            | Instruction::And { .. }
            | Instruction::Xor { .. }
            | Instruction::Add { .. }
            | Instruction::Subtract { .. }
            | Instruction::ShiftRight { .. }
            | Instruction::SubtractFrom { .. }
            | Instruction::ShiftLeft { .. }
            | Instruction::Random { .. } => true,
            _ => false,
        }
    }

    /// Whether the instruction works on memory and the index register.
    pub open spec fn is_memory(self) -> bool {
        match self {
            Instruction::SetIndex { .. }
            | Instruction::AddToIndex { .. }
            | Instruction::Glyph { .. }
            | Instruction::StoreDigits { .. }
            | Instruction::StoreRegisters { .. }
            | Instruction::LoadRegisters { .. } => true,
            _ => false,
        }
    }

    /// Every register index is below 16, every address below 4096 and every
    /// row count below 16.
    pub open spec fn well_formed(self) -> bool {
        match self {
            Instruction::Nop | Instruction::ClearScreen | Instruction::Return => true,
            Instruction::Jump { addr } | Instruction::Call { addr } | Instruction::SetIndex {
                addr,
            } | Instruction::JumpOffset { addr } => addr < 4096,
            Instruction::SkipIfEqual { x, .. } | Instruction::SkipIfNotEqual { x, .. }
            | Instruction::Load { x, .. } | Instruction::AddByte { x, .. } | Instruction::Random {
                x,
                ..
            } => x < 16,
            Instruction::SkipIfRegistersEqual { x, y } | Instruction::Copy { x, y }
            | Instruction::Or { x, y } | Instruction::And { x, y } | Instruction::Xor { x, y }
            | Instruction::Add { x, y } | Instruction::Subtract { x, y }
            | Instruction::SubtractFrom { x, y } | Instruction::SkipIfRegistersDiffer { x, y } => x
                < 16 && y < 16,
            Instruction::Draw { x, y, rows } => x < 16 && y < 16 && rows < 16,
            Instruction::ShiftRight { x } | Instruction::ShiftLeft { x }
            | Instruction::SkipIfKeyHeld { x } | Instruction::SkipIfKeyUp { x }
            | Instruction::ReadDelay { x } | Instruction::WaitKey { x } | Instruction::SetDelay {
                x,
            } | Instruction::SetSound { x } | Instruction::AddToIndex { x } | Instruction::Glyph {
                x,
            } | Instruction::StoreDigits { x } | Instruction::StoreRegisters { x }
            | Instruction::LoadRegisters { x } => x < 16,
            Instruction::Unknown { .. } => true,
        }
    }
}

/// The six fields of an instruction word, as the masks and shifts of the
/// decoder yield them.
proof fn lemma_fields(opcode: u16)
    ensures
        (opcode >> 12) == opcode / 4096,
        ((opcode & 0x0F00) >> 8) == (opcode / 256) % 16,
        ((opcode & 0x00F0) >> 4) == (opcode / 16) % 16,
        (opcode & 0x000F) == opcode % 16,
        (opcode & 0x00FF) == opcode % 256,
        (opcode & 0x0FFF) == opcode % 4096,
{
    assert((opcode >> 12) == opcode / 4096) by (bit_vector);
    assert(((opcode & 0x0F00) >> 8) == (opcode / 256) % 16) by (bit_vector);
    assert(((opcode & 0x00F0) >> 4) == (opcode / 16) % 16) by (bit_vector);
    assert((opcode & 0x000F) == opcode % 16) by (bit_vector);
    assert((opcode & 0x00FF) == opcode % 256) by (bit_vector);
    assert((opcode & 0x0FFF) == opcode % 4096) by (bit_vector);
}

/// Decodes one instruction word.
pub fn decode(opcode: u16) -> (instr: Instruction)
    ensures
        instr == decoded(opcode),
        instr.well_formed(),
{
    proof {
        lemma_fields(opcode);
    }
    let family: u16 = opcode >> 12;
    let x: u8 = ((opcode & 0x0F00) >> 8) as u8;
    let y: u8 = ((opcode & 0x00F0) >> 4) as u8;
    let n: u8 = (opcode & 0x000F) as u8;
    let nn: u8 = (opcode & 0x00FF) as u8;
    let nnn: u16 = opcode & 0x0FFF;
    match family {
        0x0 => match opcode {
            0x0000 => Instruction::Nop,
            0x00E0 => Instruction::ClearScreen,
            0x00EE => Instruction::Return,
            _ => Instruction::Unknown { opcode },
        },
        0x1 => Instruction::Jump { addr: nnn },
        0x2 => Instruction::Call { addr: nnn },
        0x3 => Instruction::SkipIfEqual { x, byte: nn },
        0x4 => Instruction::SkipIfNotEqual { x, byte: nn },
        0x5 => if n == 0 {
            Instruction::SkipIfRegistersEqual { x, y }
        } else {
            Instruction::Unknown { opcode }
        },
        0x6 => Instruction::Load { x, byte: nn },
        0x7 => Instruction::AddByte { x, byte: nn },
        0x8 => match n {
            0x0 => Instruction::Copy { x, y },
            0x1 => Instruction::Or { x, y },
            0x2 => Instruction::And { x, y },
            0x3 => Instruction::Xor { x, y },
            0x4 => Instruction::Add { x, y },
            0x5 => Instruction::Subtract { x, y },
            0x6 => Instruction::ShiftRight { x },
            0x7 => Instruction::SubtractFrom { x, y },
            0xE => Instruction::ShiftLeft { x },
            _ => Instruction::Unknown { opcode },
        },
        0x9 => if n == 0 {
            Instruction::SkipIfRegistersDiffer { x, y }
        } else {
            Instruction::Unknown { opcode }
        },
        0xA => Instruction::SetIndex { addr: nnn },
        0xB => Instruction::JumpOffset { addr: nnn },
        0xC => Instruction::Random { x, mask: nn },
        0xD => Instruction::Draw { x, y, rows: n },
        0xE => match nn {
            0x9E => Instruction::SkipIfKeyHeld { x },
            0xA1 => Instruction::SkipIfKeyUp { x },
            _ => Instruction::Unknown { opcode },
        },
        _ => match nn {
            0x07 => Instruction::ReadDelay { x },
            0x0A => Instruction::WaitKey { x },
            0x15 => Instruction::SetDelay { x },
            0x18 => Instruction::SetSound { x },
            0x1E => Instruction::AddToIndex { x },
            0x29 => Instruction::Glyph { x },
            0x33 => Instruction::StoreDigits { x },
            0x55 => Instruction::StoreRegisters { x },
            0x65 => Instruction::LoadRegisters { x },
            _ => Instruction::Unknown { opcode },
        },
    }
}

} // verus!
