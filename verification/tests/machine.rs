use lib::cpu::CPU;
use lib::machine::{is_implemented, is_implemented_cb};

fn cpu_with(code: &[u8]) -> Box<CPU> {
    let mut cpu = Box::new(CPU::new());
    cpu.boot_rom_active = false;
    cpu.pc = 0xC000;
    cpu.sp = 0xDFF0;
    for (i, b) in code.iter().enumerate() {
        cpu.memory[0xC000 + i] = *b;
    }
    cpu
}

#[test]
fn tick_runs_one_instruction() {
    let mut cpu = cpu_with(&[0x3E, 0x42]);
    cpu.tick();
    assert_eq!(cpu.registers.a, 0x42);
    assert_eq!(cpu.pc, 0xC002);
    assert_eq!(cpu.div_counter, 1);
    assert_eq!(cpu.ly_divider, 1);
}

#[test]
fn tick_decodes_cb_prefix() {
    let mut cpu = cpu_with(&[0xCB, 0x37]);
    cpu.registers.a = 0xAB;
    cpu.tick();
    assert_eq!(cpu.registers.a, 0xBA);
    assert_eq!(cpu.pc, 0xC002);
}

#[test]
fn divider_increments_div_every_256_cycles() {
    let mut cpu = Box::new(CPU::new());
    cpu.memory[0xFF04] = 0xFF;
    cpu.div_counter = 255;
    cpu.tick();
    assert_eq!(cpu.div_counter, 0);
    assert_eq!(cpu.memory[0xFF04], 0x00);
    assert_eq!(cpu.pc, 1);
    assert_eq!(cpu.ly_divider, 0);
}

#[test]
fn line_timer_stops_while_boot_rom_mapped() {
    let mut cpu = Box::new(CPU::new());
    for _ in 0..1000 {
        cpu.tick();
    }
    assert_eq!(cpu.ly_divider, 0);
    assert_eq!(cpu.ly, 0);
    assert_eq!(cpu.div_counter, 1000 % 256);
    assert_eq!(cpu.memory[0xFF04], (1000 / 256) as u8);
}

#[test]
fn reaching_line_144_requests_vblank() {
    let mut cpu = cpu_with(&[0x00]);
    cpu.ly = 143;
    cpu.ly_divider = 455;
    cpu.tick();
    assert_eq!(cpu.ly, 144);
    assert_eq!(cpu.ly_divider, 0);
    assert_eq!(cpu.memory[0xFF0F] & 0x01, 0x01);
}

#[test]
fn ly_wraps_after_line_153() {
    let mut cpu = cpu_with(&[0x00]);
    cpu.ly = 153;
    cpu.ly_divider = 455;
    cpu.tick();
    assert_eq!(cpu.ly, 0);
    assert_eq!(cpu.memory[0xFF0F], 0);
}

#[test]
fn vblank_interrupt_is_dispatched() {
    let mut cpu = cpu_with(&[0x3C]);
    cpu.ime = true;
    cpu.memory[0xFFFF] = 0x01;
    cpu.memory[0xFF0F] = 0x03;
    cpu.memory[0x0040] = 0x00;
    cpu.tick();
    assert!(!cpu.ime);
    assert_eq!(cpu.memory[0xFF0F], 0x02);
    assert_eq!(cpu.sp, 0xDFEE);
    assert_eq!(cpu.memory[0xDFEF], 0xC0);
    assert_eq!(cpu.memory[0xDFEE], 0x00);
    assert_eq!(cpu.pc, 0x0041);
    assert_eq!(cpu.registers.a, 0);
}

#[test]
fn interrupt_not_taken_when_disabled_or_masked() {
    let mut cpu = cpu_with(&[0x00]);
    cpu.memory[0xFFFF] = 0x01;
    cpu.memory[0xFF0F] = 0x01;
    cpu.tick();
    assert_eq!(cpu.pc, 0xC001);
    let mut cpu = cpu_with(&[0x00]);
    cpu.ime = true;
    cpu.memory[0xFFFF] = 0x00;
    cpu.memory[0xFF0F] = 0x01;
    cpu.tick();
    assert_eq!(cpu.pc, 0xC001);
    assert!(cpu.ime);
}

#[test]
fn execute_and_execute_cb_dispatch() {
    let mut cpu = cpu_with(&[]);
    cpu.execute(0x3C);
    assert_eq!(cpu.registers.a, 1);
    cpu.registers.a = 0xFF;
    cpu.execute_cb(0x87);
    assert_eq!(cpu.registers.a, 0xFE);
    cpu.execute(0x47);
    assert_eq!(cpu.registers.b, 0xFE);
}

#[test]
fn implemented_opcode_tables() {
    assert!(is_implemented(0x00));
    assert!(is_implemented(0x3C));
    assert!(is_implemented(0xD9));
    assert!(!is_implemented(0xD3));
    assert!(!is_implemented(0xCB));
    assert!(!is_implemented(0x76));
    assert_eq!((0..=255u8).filter(|op| is_implemented(*op)).count(), 98);
    assert!(is_implemented_cb(0x37));
    assert!(is_implemented_cb(0x7C));
    assert!(!is_implemented_cb(0x00));
    assert_eq!((0..=255u8).filter(|op| is_implemented_cb(*op)).count(), 6);
}

#[test]
fn countdown_loop_runs_to_completion() {
    // LD A, 5; DEC A; JR NZ, -3; LD B, A
    let mut cpu = cpu_with(&[0x3E, 0x05, 0x3D, 0x20, 0xFD, 0x47]);
    let mut steps = 0;
    while cpu.pc != 0xC006 {
        cpu.tick();
        steps += 1;
    }
    assert_eq!(cpu.registers.a, 0);
    assert_eq!(cpu.registers.b, 0);
    assert_eq!(steps, 1 + 5 * 2 + 1);
    assert_eq!(cpu.registers.f & 0x80, 0x80);
}

#[test]
fn call_and_return_through_ticks() {
    // CALL 0xC010; LD B, A  ...  at 0xC010: LD A, 7; RET
    let mut cpu = cpu_with(&[0xCD, 0x10, 0xC0, 0x47]);
    cpu.memory[0xC010] = 0x3E;
    cpu.memory[0xC011] = 0x07;
    cpu.memory[0xC012] = 0xC9;
    for _ in 0..4 {
        cpu.tick();
    }
    assert_eq!(cpu.registers.b, 7);
    assert_eq!(cpu.pc, 0xC004);
    assert_eq!(cpu.sp, 0xDFF0);
}

#[test]
fn tick_timers_and_interrupt_pieces() {
    let mut cpu = cpu_with(&[0x00]);
    cpu.ly_divider = 10;
    cpu.tick_timers();
    assert_eq!((cpu.div_counter, cpu.ly_divider), (1, 11));
    cpu.ime = true;
    cpu.memory[0xFFFF] = 0x1F;
    cpu.memory[0xFF0F] = 0x01;
    cpu.service_interrupt();
    assert_eq!(cpu.pc, 0x0040);
    assert_eq!(cpu.memory[0xFF0F], 0x00);
    cpu.memory[0x0040] = 0x3C;
    cpu.execute_next();
    assert_eq!(cpu.registers.a, 1);
    assert_eq!(cpu.pc, 0x0041);
}
