use chip8::cpu::Cpu;
use chip8::font::FONT_SET;
use chip8::state::Progress;

fn memory_machine() -> Cpu {
    let mut cpu = Cpu::new();
    cpu.reset();
    cpu
}

fn exec(cpu: &mut Cpu, opcode: u16) {
    assert_eq!(cpu.process_opcode(opcode, 0, 0), Ok(Progress::Completed));
}

#[test]
fn set_index_takes_the_address() {
    let mut cpu = memory_machine();
    exec(&mut cpu, 0xA123);
    assert_eq!(cpu.i, 0x123);
    exec(&mut cpu, 0xAFFF);
    assert_eq!(cpu.i, 0xFFF);
    assert_eq!(cpu.pc, 0x204);
}

#[test]
fn add_to_index_wraps_at_sixteen_bits() {
    let mut cpu = memory_machine();
    cpu.i = 0x0FF0;
    cpu.v[2] = 0x20;
    exec(&mut cpu, 0xF21E);
    assert_eq!(cpu.i, 0x1010);
    cpu.i = 0xFFFF;
    cpu.v[2] = 2;
    exec(&mut cpu, 0xF21E);
    assert_eq!(cpu.i, 0x0001);
    assert_eq!(cpu.v[0xF], 0);
}

#[test]
fn digits_of_234_are_stored_at_the_index() {
    let mut cpu = memory_machine();
    cpu.v[7] = 234;
    cpu.i = 0x300;
    exec(&mut cpu, 0xF733);
    assert_eq!(cpu.memory[0x300], 2);
    assert_eq!(cpu.memory[0x301], 3);
    assert_eq!(cpu.memory[0x302], 4);
    assert_eq!(cpu.memory[0x2FF], 0);
    assert_eq!(cpu.memory[0x303], 0);
    assert_eq!(cpu.i, 0x300);
    assert_eq!(cpu.pc, 0x202);
}

#[test]
fn digits_of_every_byte() {
    for value in 0..=255u8 {
        let mut cpu = memory_machine();
        cpu.v[0] = value;
        cpu.i = 0x400;
        exec(&mut cpu, 0xF033);
        assert_eq!(cpu.memory[0x400], value / 100);
        assert_eq!(cpu.memory[0x401], (value / 10) % 10);
        assert_eq!(cpu.memory[0x402], value % 10);
    }
    let mut cpu = memory_machine();
    cpu.v[0] = 7;
    cpu.i = 0x400;
    exec(&mut cpu, 0xF033);
    assert_eq!(&cpu.memory[0x400..0x403], &[0, 0, 7]);
    cpu.v[0] = 255;
    exec(&mut cpu, 0xF033);
    assert_eq!(&cpu.memory[0x400..0x403], &[2, 5, 5]);
}

#[test]
fn digits_wrap_round_the_end_of_memory() {
    let mut cpu = memory_machine();
    cpu.v[1] = 197;
    cpu.i = 0xFFF;
    cpu.memory[0] = 0xEE;
    exec(&mut cpu, 0xF133);
    assert_eq!(cpu.memory[0xFFF], 1);
    assert_eq!(cpu.memory[0x000], 9);
    assert_eq!(cpu.memory[0x001], 7);
    cpu.i = 0x1300;
    exec(&mut cpu, 0xF133);
    assert_eq!(&cpu.memory[0x300..0x303], &[1, 9, 7]);
}

#[test]
fn font_is_loaded_as_given() {
    let cpu = memory_machine();
    assert_eq!(&cpu.memory[0..80], &FONT_SET[..]);
    assert_eq!(&FONT_SET[0..5], &[0xF0, 0x90, 0x90, 0x90, 0xF0]);
    assert_eq!(&FONT_SET[5..10], &[0x20, 0x60, 0x20, 0x20, 0x70]);
    assert_eq!(&FONT_SET[50..55], &[0xF0, 0x90, 0xF0, 0x90, 0x90]);
    assert_eq!(&FONT_SET[75..80], &[0xF0, 0x80, 0xF0, 0x80, 0x80]);
    assert_eq!(FONT_SET.iter().map(|&b| b as u32).sum::<u32>(), 13008);
    assert!(FONT_SET.iter().all(|&b| b & 0x0F == 0));
}

#[test]
fn glyph_address_is_five_times_the_digit() {
    for digit in 0..16u8 {
        let mut cpu = memory_machine();
        cpu.v[4] = digit;
        exec(&mut cpu, 0xF429);
        assert_eq!(cpu.i, digit as u16 * 5);
        let at = cpu.i as usize;
        assert_eq!(&cpu.memory[at..at + 5], &FONT_SET[digit as usize * 5..digit as usize * 5 + 5]);
    }
    let mut cpu = memory_machine();
    cpu.v[4] = 0xA;
    exec(&mut cpu, 0xF429);
    assert_eq!(cpu.i, 50);
    assert_eq!(&cpu.memory[50..55], &[0xF0, 0x90, 0xF0, 0x90, 0x90]);
    cpu.v[4] = 255;
    exec(&mut cpu, 0xF429);
    assert_eq!(cpu.i, 1275);
}

#[test]
fn store_registers_copies_up_to_x_and_adds_x_to_the_index() {
    let mut cpu = memory_machine();
    for k in 0..16 {
        cpu.v[k] = 0x10 + k as u8;
    }
    cpu.i = 0x300;
    exec(&mut cpu, 0xF355);
    assert_eq!(&cpu.memory[0x300..0x305], &[0x10, 0x11, 0x12, 0x13, 0x00]);
    assert_eq!(cpu.memory[0x2FF], 0);
    assert_eq!(cpu.i, 0x303);
    cpu.i = 0x500;
    exec(&mut cpu, 0xF055);
    assert_eq!(&cpu.memory[0x500..0x502], &[0x10, 0x00]);
    assert_eq!(cpu.i, 0x500);
    cpu.i = 0x600;
    exec(&mut cpu, 0xFF55);
    for k in 0..16 {
        assert_eq!(cpu.memory[0x600 + k], 0x10 + k as u8);
    }
    assert_eq!(cpu.memory[0x610], 0);
    assert_eq!(cpu.i, 0x60F);
    for k in 0..16 {
        assert_eq!(cpu.v[k], 0x10 + k as u8);
    }
}

#[test]
fn store_registers_wraps_round_the_end_of_memory() {
    let mut cpu = memory_machine();
    cpu.v[0] = 1;
    cpu.v[1] = 2;
    cpu.v[2] = 3;
    cpu.i = 0xFFE;
    exec(&mut cpu, 0xF255);
    assert_eq!(cpu.memory[0xFFE], 1);
    assert_eq!(cpu.memory[0xFFF], 2);
    assert_eq!(cpu.memory[0x000], 3);
    assert_eq!(cpu.memory[0x001], FONT_SET[1]);
    assert_eq!(cpu.i, 0x1000);
}

#[test]
fn load_registers_copies_up_to_x_and_adds_x_to_the_index() {
    let mut cpu = memory_machine();
    for k in 0..16 {
        cpu.memory[0x300 + k] = 0xA0 + k as u8;
        cpu.v[k] = 0x55;
    }
    cpu.i = 0x300;
    exec(&mut cpu, 0xF265);
    assert_eq!(&cpu.v[0..4], &[0xA0, 0xA1, 0xA2, 0x55]);
    assert_eq!(cpu.i, 0x302);
    cpu.i = 0x300;
    exec(&mut cpu, 0xFF65);
    for k in 0..16 {
        assert_eq!(cpu.v[k], 0xA0 + k as u8);
    }
    assert_eq!(cpu.i, 0x30F);
    assert_eq!(cpu.memory[0x300], 0xA0);
}

#[test]
fn load_registers_wraps_round_the_end_of_memory() {
    let mut cpu = memory_machine();
    cpu.memory[0xFFF] = 0x77;
    cpu.i = 0xFFF;
    exec(&mut cpu, 0xF165);
    assert_eq!(cpu.v[0], 0x77);
    assert_eq!(cpu.v[1], FONT_SET[0]);
    assert_eq!(cpu.i, 0x1000);
}

#[test]
fn store_then_load_gives_the_registers_back() {
    let mut cpu = memory_machine();
    for k in 0..16 {
        cpu.v[k] = (k * 17) as u8;
    }
    cpu.i = 0x700;
    exec(&mut cpu, 0xF755);
    for k in 0..16 {
        cpu.v[k] = 0;
    }
    cpu.i = 0x700;
    exec(&mut cpu, 0xF765);
    for k in 0..8 {
        assert_eq!(cpu.v[k], (k * 17) as u8);
    }
    for k in 8..16 {
        assert_eq!(cpu.v[k], 0);
    }
}

#[test]
fn delay_timer_is_set_from_and_read_into_registers() {
    let mut cpu = memory_machine();
    cpu.v[3] = 200;
    exec(&mut cpu, 0xF315);
    assert_eq!(cpu.delay_timer.value_after(0), 200);
    assert_eq!(cpu.process_opcode(0xF407, 0, 32), Ok(Progress::Completed));
    assert_eq!(cpu.v[4], 198);
    assert_eq!(cpu.process_opcode(0xF507, 0, 15), Ok(Progress::Completed));
    assert_eq!(cpu.v[5], 200);
    assert_eq!(cpu.process_opcode(0xF607, 0, 200 * 16), Ok(Progress::Completed));
    assert_eq!(cpu.v[6], 0);
    assert_eq!(cpu.process_opcode(0xF707, 0, u128::MAX), Ok(Progress::Completed));
    assert_eq!(cpu.v[7], 0);
    assert_eq!(cpu.v[3], 200);
    assert_eq!(cpu.pc, 0x20A);
}

#[test]
fn delay_timer_read_in_a_cycle_has_not_grown() {
    let mut cpu = memory_machine();
    cpu.load_rom(&[0x63, 0x09, 0xF3, 0x15, 0xF4, 0x07]);
    assert_eq!(cpu.execute_cycle(), Ok(Progress::Completed));
    assert_eq!(cpu.execute_cycle(), Ok(Progress::Completed));
    cpu.v[4] = 0xFF;
    assert_eq!(cpu.execute_cycle(), Ok(Progress::Completed));
    assert!(cpu.v[4] <= 9);
    assert_eq!(cpu.pc, 0x206);
}
