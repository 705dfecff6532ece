use chip8::cpu::Cpu;
use chip8::state::Progress;

fn keypad_machine() -> Cpu {
    let mut cpu = Cpu::new();
    cpu.reset();
    cpu
}

#[test]
fn is_pressed_reads_the_key_state() {
    let mut cpu = keypad_machine();
    cpu.keys[0] = true;
    cpu.keys[0xF] = true;
    assert!(cpu.is_pressed(0));
    assert!(!cpu.is_pressed(1));
    assert!(cpu.is_pressed(0xF));
    assert!(!cpu.is_pressed(16));
    assert!(!cpu.is_pressed(255));
}

#[test]
fn skip_if_key_held() {
    let mut cpu = keypad_machine();
    cpu.keys[7] = true;
    cpu.v[1] = 7;
    cpu.v[2] = 8;
    assert_eq!(cpu.process_opcode(0xE19E, 0, 0), Ok(Progress::Completed));
    assert_eq!(cpu.pc, 0x204);
    assert_eq!(cpu.process_opcode(0xE29E, 0, 0), Ok(Progress::Completed));
    assert_eq!(cpu.pc, 0x206);
    cpu.v[2] = 0x17;
    assert_eq!(cpu.process_opcode(0xE29E, 0, 0), Ok(Progress::Completed));
    assert_eq!(cpu.pc, 0x208);
}

#[test]
fn skip_if_key_up() {
    let mut cpu = keypad_machine();
    cpu.keys[7] = true;
    cpu.v[1] = 7;
    cpu.v[2] = 8;
    assert_eq!(cpu.process_opcode(0xE1A1, 0, 0), Ok(Progress::Completed));
    assert_eq!(cpu.pc, 0x202);
    assert_eq!(cpu.process_opcode(0xE2A1, 0, 0), Ok(Progress::Completed));
    assert_eq!(cpu.pc, 0x206);
    cpu.v[2] = 200;
    assert_eq!(cpu.process_opcode(0xE2A1, 0, 0), Ok(Progress::Completed));
    assert_eq!(cpu.pc, 0x20A);
}

#[test]
fn wait_for_key_makes_no_progress_while_none_is_held() {
    let mut cpu = keypad_machine();
    cpu.v[3] = 0x42;
    for _ in 0..3 {
        assert_eq!(cpu.process_opcode(0xF30A, 0, 0), Ok(Progress::AwaitingKey));
        assert_eq!(cpu.pc, 0x200);
        assert_eq!(cpu.v[3], 0x42);
    }
    cpu.keys[0xC] = true;
    assert_eq!(cpu.process_opcode(0xF30A, 0, 0), Ok(Progress::Completed));
    assert_eq!(cpu.pc, 0x202);
    assert_eq!(cpu.v[3], 0xC);
}

#[test]
fn wait_for_key_takes_the_lowest_key_held() {
    let mut cpu = keypad_machine();
    cpu.keys[9] = true;
    cpu.keys[4] = true;
    cpu.keys[0xE] = true;
    assert_eq!(cpu.process_opcode(0xF50A, 0, 0), Ok(Progress::Completed));
    assert_eq!(cpu.v[5], 4);
    cpu.keys[0] = true;
    assert_eq!(cpu.process_opcode(0xF60A, 0, 0), Ok(Progress::Completed));
    assert_eq!(cpu.v[6], 0);
    assert_eq!(cpu.pressed_key(), Some(0));
    cpu.keys = [false; 16];
    assert_eq!(cpu.pressed_key(), None);
    cpu.keys[15] = true;
    assert_eq!(cpu.pressed_key(), Some(15));
}

#[test]
fn wait_for_key_press_stores_without_advancing() {
    let mut cpu = keypad_machine();
    assert_eq!(cpu.wait_for_key_press(0xC), Progress::AwaitingKey);
    assert_eq!(cpu.v[0xC], 0);
    cpu.keys[0xB] = true;
    assert_eq!(cpu.wait_for_key_press(0xC), Progress::Completed);
    assert_eq!(cpu.v[0xC], 0xB);
    assert_eq!(cpu.pc, 0x200);
}

#[test]
fn waiting_cycle_repeats_the_same_instruction() {
    let mut cpu = keypad_machine();
    cpu.load_rom(&[0xF1, 0x0A, 0x62, 0x07]);
    assert_eq!(cpu.execute_cycle(), Ok(Progress::AwaitingKey));
    assert_eq!(cpu.execute_cycle(), Ok(Progress::AwaitingKey));
    assert_eq!(cpu.pc, 0x200);
    cpu.keys[2] = true;
    assert_eq!(cpu.execute_cycle(), Ok(Progress::Completed));
    assert_eq!(cpu.v[1], 2);
    assert_eq!(cpu.execute_cycle(), Ok(Progress::Completed));
    assert_eq!(cpu.v[2], 7);
}
