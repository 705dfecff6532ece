use chip8::cpu::Cpu;
use chip8::diagnostics::log_text;
use chip8::state::{Diagnostic, Progress};

fn logging_machine() -> Cpu {
    let mut cpu = Cpu::new();
    cpu.reset();
    cpu
}

#[test]
fn unknown_word_in_family_zero_is_logged_once() {
    let mut cpu = logging_machine();
    cpu.i = 0x2A;
    cpu.v[1] = 9;
    assert_eq!(cpu.process_opcode(0x0123, 0, 0), Ok(Progress::Completed));
    assert_eq!(cpu.errors, vec![Diagnostic::UnknownOpcode { index: 0x2A, opcode: 0x0123 }]);
    assert_eq!(cpu.pc, 0x202);
    assert_eq!(cpu.v[1], 9);
    assert_eq!(cpu.i, 0x2A);
    assert_eq!(cpu.sp, 0);
}

#[test]
fn every_unknown_word_is_logged_and_passed_over() {
    let words: [u16; 12] = [
        0x0001, 0x0100, 0x00E1, 0x00FF, 0x5121, 0x812F, 0x8128, 0x9121, 0xE19F, 0xE100, 0xF1FF,
        0xF100,
    ];
    let mut cpu = logging_machine();
    for (count, &word) in words.iter().enumerate() {
        let pc = cpu.pc;
        assert_eq!(cpu.process_opcode(word, 0, 0), Ok(Progress::Completed));
        assert_eq!(cpu.errors.len(), count + 1);
        assert_eq!(cpu.errors[count], Diagnostic::UnknownOpcode { index: 0, opcode: word });
        assert_eq!(cpu.pc, pc + 2);
    }
    assert!(cpu.v.iter().all(|&b| b == 0));
    assert!(cpu.d_buffer.iter().all(|&p| !p));
}

#[test]
fn known_words_log_nothing() {
    let words: [u16; 20] = [
        0x0000, 0x00E0, 0x1200, 0x3000, 0x4000, 0x5000, 0x6000, 0x7000, 0x8000, 0x8001, 0x8002,
        0x8003, 0x8004, 0x8005, 0x8006, 0x8007, 0x800E, 0x9000, 0xA000, 0xD000,
    ];
    let mut cpu = logging_machine();
    for &word in words.iter() {
        assert_eq!(cpu.process_opcode(word, 0, 0), Ok(Progress::Completed));
    }
    assert!(cpu.errors.is_empty());
}

#[test]
fn sound_request_is_logged_as_not_implemented() {
    let mut cpu = logging_machine();
    cpu.i = 0x123;
    cpu.v[4] = 60;
    assert_eq!(cpu.process_opcode(0xF418, 0, 0), Ok(Progress::Completed));
    assert_eq!(cpu.errors, vec![Diagnostic::SoundNotImplemented { index: 0x123 }]);
    assert_eq!(cpu.sound_timer, 0);
    assert_eq!(cpu.pc, 0x202);
}

#[test]
fn log_only_grows() {
    let mut cpu = logging_machine();
    cpu.process_opcode(0x0123, 0, 0).unwrap();
    cpu.process_opcode(0xF018, 0, 0).unwrap();
    cpu.process_opcode(0x6001, 0, 0).unwrap();
    cpu.process_opcode(0xFFFF, 0, 0).unwrap();
    cpu.reset();
    assert_eq!(
        cpu.errors,
        vec![
            Diagnostic::UnknownOpcode { index: 0, opcode: 0x0123 },
            Diagnostic::SoundNotImplemented { index: 0 },
            Diagnostic::UnknownOpcode { index: 0, opcode: 0xFFFF },
        ]
    );
}

#[test]
fn line_of_an_unknown_word() {
    let entry = Diagnostic::UnknownOpcode { index: 0x02AB, opcode: 0xF1FF };
    assert_eq!(entry.line(), "0x02AB: Unknown opcode - 0xF1FF\n");
    assert_eq!(entry.line(), format!("{:#06X}: Unknown opcode - {:#04X}\n", 0x02ABu16, 0xF1FFu16));
}

#[test]
fn line_shows_the_word_with_at_least_two_digits() {
    let cases: [(u16, u16, &str); 6] = [
        (0x0000, 0x0001, "0x0000: Unknown opcode - 0x01\n"),
        (0x0000, 0x00FF, "0x0000: Unknown opcode - 0xFF\n"),
        (0x0FFF, 0x0100, "0x0FFF: Unknown opcode - 0x100\n"),
        (0xFFFF, 0x0FFF, "0xFFFF: Unknown opcode - 0xFFF\n"),
        (0x1234, 0x1000, "0x1234: Unknown opcode - 0x1000\n"),
        (0xABCD, 0x9AB1, "0xABCD: Unknown opcode - 0x9AB1\n"),
    ];
    for &(index, opcode, text) in cases.iter() {
        assert_eq!(Diagnostic::UnknownOpcode { index, opcode }.line(), text);
    }
}

#[test]
fn line_agrees_with_the_formatter_on_every_word() {
    for word in 0..=0xFFFFu16 {
        let entry = Diagnostic::UnknownOpcode { index: word, opcode: word };
        assert_eq!(entry.line(), format!("{:#06X}: Unknown opcode - {:#04X}\n", word, word));
    }
}

#[test]
fn line_of_a_sound_request() {
    let entry = Diagnostic::SoundNotImplemented { index: 0x0300 };
    assert_eq!(entry.line(), "0x0300: Sound not implemented\n");
    assert_eq!(Diagnostic::SoundNotImplemented { index: 0xF }.line(), "0x000F: Sound not implemented\n");
}

#[test]
fn log_text_joins_the_lines() {
    let log = vec![
        Diagnostic::UnknownOpcode { index: 0x10, opcode: 0x0123 },
        Diagnostic::SoundNotImplemented { index: 0x20 },
    ];
    assert_eq!(log_text(&log), "0x0010: Unknown opcode - 0x123\n0x0020: Sound not implemented\n");
    assert_eq!(log_text(&Vec::new()), "");
}
