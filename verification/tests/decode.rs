use chip8::instruction::{decode, Instruction};

#[test]
fn decode_reads_the_fields() {
    assert_eq!(decode(0x0000), Instruction::Nop);
    assert_eq!(decode(0x00E0), Instruction::ClearScreen);
    assert_eq!(decode(0x00EE), Instruction::Return);
    assert_eq!(decode(0x1ABC), Instruction::Jump { addr: 0xABC });
    assert_eq!(decode(0x2ABC), Instruction::Call { addr: 0xABC });
    assert_eq!(decode(0x3A12), Instruction::SkipIfEqual { x: 0xA, byte: 0x12 });
    assert_eq!(decode(0x4B34), Instruction::SkipIfNotEqual { x: 0xB, byte: 0x34 });
    assert_eq!(decode(0x5CD0), Instruction::SkipIfRegistersEqual { x: 0xC, y: 0xD });
    assert_eq!(decode(0x6E56), Instruction::Load { x: 0xE, byte: 0x56 });
    assert_eq!(decode(0x7F78), Instruction::AddByte { x: 0xF, byte: 0x78 });
    assert_eq!(decode(0x9120), Instruction::SkipIfRegistersDiffer { x: 1, y: 2 });
    assert_eq!(decode(0xA123), Instruction::SetIndex { addr: 0x123 });
    assert_eq!(decode(0xB456), Instruction::JumpOffset { addr: 0x456 });
    assert_eq!(decode(0xC7F0), Instruction::Random { x: 7, mask: 0xF0 });
    assert_eq!(decode(0xD12F), Instruction::Draw { x: 1, y: 2, rows: 0xF });
    assert_eq!(decode(0xE39E), Instruction::SkipIfKeyHeld { x: 3 });
    assert_eq!(decode(0xE4A1), Instruction::SkipIfKeyUp { x: 4 });
}

#[test]
fn decode_arithmetic_family() {
    assert_eq!(decode(0x8120), Instruction::Copy { x: 1, y: 2 });
    assert_eq!(decode(0x8121), Instruction::Or { x: 1, y: 2 });
    assert_eq!(decode(0x8122), Instruction::And { x: 1, y: 2 });
    assert_eq!(decode(0x8123), Instruction::Xor { x: 1, y: 2 });
    assert_eq!(decode(0x8124), Instruction::Add { x: 1, y: 2 });
    assert_eq!(decode(0x8125), Instruction::Subtract { x: 1, y: 2 });
    assert_eq!(decode(0x8126), Instruction::ShiftRight { x: 1 });
    assert_eq!(decode(0x8127), Instruction::SubtractFrom { x: 1, y: 2 });
    assert_eq!(decode(0x812E), Instruction::ShiftLeft { x: 1 });
    for n in [0x8u16, 0x9, 0xA, 0xB, 0xC, 0xD, 0xF] {
        assert_eq!(decode(0x8120 | n), Instruction::Unknown { opcode: 0x8120 | n });
    }
}

#[test]
fn decode_misc_family() {
    assert_eq!(decode(0xF507), Instruction::ReadDelay { x: 5 });
    assert_eq!(decode(0xF50A), Instruction::WaitKey { x: 5 });
    assert_eq!(decode(0xF515), Instruction::SetDelay { x: 5 });
    assert_eq!(decode(0xF518), Instruction::SetSound { x: 5 });
    assert_eq!(decode(0xF51E), Instruction::AddToIndex { x: 5 });
    assert_eq!(decode(0xF529), Instruction::Glyph { x: 5 });
    assert_eq!(decode(0xF533), Instruction::StoreDigits { x: 5 });
    assert_eq!(decode(0xF555), Instruction::StoreRegisters { x: 5 });
    assert_eq!(decode(0xF565), Instruction::LoadRegisters { x: 5 });
}

#[test]
fn decode_counts_the_unknown_words() {
    let mut unknown = 0u32;
    for word in 0..=0xFFFFu16 {
        if let Instruction::Unknown { opcode } = decode(word) {
            assert_eq!(opcode, word);
            unknown += 1;
        }
    }
    // Family 0: all but three words. Families 5 and 9: fifteen of sixteen
    // last nibbles. Family 8: seven of sixteen. Family E: all but two low
    // bytes. Family F: all but nine low bytes.
    let expected = (4096 - 3) + 2 * 256 * 15 + 256 * 7 + 16 * (256 - 2) + 16 * (256 - 9);
    assert_eq!(unknown, expected);
}

#[test]
fn decode_keeps_every_field_in_range() {
    for word in 0..=0xFFFFu16 {
        match decode(word) {
            Instruction::Draw { x, y, rows } => assert!(x < 16 && y < 16 && rows < 16),
            Instruction::Jump { addr }
            | Instruction::Call { addr }
            | Instruction::SetIndex { addr }
            | Instruction::JumpOffset { addr } => assert!(addr < 4096),
            Instruction::Add { x, y } | Instruction::Subtract { x, y } => assert!(x < 16 && y < 16),
            Instruction::StoreRegisters { x } | Instruction::LoadRegisters { x } => assert!(x < 16),
            _ => {}
        }
    }
}
