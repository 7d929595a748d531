use lib::cpu::CPU;

fn cpu_with(code: &[u8]) -> Box<CPU> {
    let mut cpu = Box::new(CPU::new());
    cpu.boot_rom_active = false;
    cpu.pc = 0xC000;
    cpu.sp = 0xDFF0;
    for (i, b) in code.iter().enumerate() {
        cpu.memory[0xC000 + i] = *b;
    }
    cpu
}

#[test]
fn read_after_write_on_plain_address() {
    let mut cpu = cpu_with(&[]);
    cpu.memory[0xC001] = 0x44;
    cpu.write_byte(0xC000, 0x33);
    assert_eq!(cpu.read_byte(0xC000), 0x33);
    assert_eq!(cpu.read_byte(0xC001), 0x44);
}

#[test]
fn write_to_div_does_not_read_back() {
    let mut cpu = cpu_with(&[]);
    cpu.write_byte(0xFF04, 0x33);
    assert_eq!(cpu.read_byte(0xFF04), 0x00);
}

#[test]
fn push_pop_restores_registers() {
    let mut cpu = cpu_with(&[]);
    cpu.registers.h = 0xAB;
    cpu.registers.l = 0xCD;
    let before = cpu.registers;
    cpu.push_hl();
    cpu.registers.h = 0;
    cpu.registers.l = 0;
    cpu.pop_hl();
    assert_eq!(cpu.registers, before);
    assert_eq!(cpu.sp, 0xDFF0);
}

#[test]
fn push_pop_af_masks_f() {
    let mut cpu = cpu_with(&[]);
    cpu.registers.a = 0x12;
    cpu.registers.f = 0xFF;
    cpu.push_af();
    cpu.pop_af();
    assert_eq!(cpu.registers.a, 0x12);
    assert_eq!(cpu.registers.f, 0xF0);
    assert_eq!(cpu.sp, 0xDFF0);
}

#[test]
fn call_then_ret_resumes_after_call() {
    let mut cpu = cpu_with(&[0x00, 0xD0]);
    let regs = cpu.registers;
    cpu.call_a16();
    cpu.ret();
    assert_eq!(cpu.pc, 0xC002);
    assert_eq!(cpu.sp, 0xDFF0);
    assert_eq!(cpu.registers, regs);
}

#[test]
fn inc_then_dec_restores_register() {
    let mut cpu = cpu_with(&[]);
    for v in [0x00u8, 0x0F, 0x7F, 0xFF] {
        cpu.registers.e = v;
        cpu.inc_e();
        cpu.dec_e();
        assert_eq!(cpu.registers.e, v);
        cpu.dec_e();
        cpu.inc_e();
        assert_eq!(cpu.registers.e, v);
    }
}

#[test]
fn cpl_and_swap_are_involutions() {
    let mut cpu = cpu_with(&[]);
    for v in [0x00u8, 0x5A, 0xF1, 0xFF] {
        cpu.registers.a = v;
        cpu.cpl();
        cpu.cpl();
        assert_eq!(cpu.registers.a, v);
        cpu.swap_a();
        cpu.swap_a();
        assert_eq!(cpu.registers.a, v);
    }
}

#[test]
fn interrupt_then_reti_resumes() {
    let mut cpu = cpu_with(&[0x00]);
    cpu.ime = true;
    cpu.memory[0xFFFF] = 0x01;
    cpu.memory[0xFF0F] = 0x01;
    cpu.memory[0x0040] = 0xD9;
    cpu.tick();
    assert_eq!(cpu.pc, 0xC000);
    assert_eq!(cpu.sp, 0xDFF0);
    assert!(cpu.ime);
}

#[test]
fn timers_stay_in_range() {
    let mut cpu = cpu_with(&[0x18, 0xFE]);
    for _ in 0..200_000 {
        cpu.tick();
        assert!(cpu.div_counter < 256);
        assert!(cpu.ly_divider < 456);
        assert!(cpu.ly < 154);
    }
}

#[test]
fn boot_rom_stays_unmapped() {
    let mut cpu = Box::new(CPU::new());
    // LD A, 1; LDH [0x50], A; then LD A, 0 (harmless) ...
    cpu.boot_rom[0] = 0x3E;
    cpu.boot_rom[1] = 0x01;
    cpu.boot_rom[2] = 0xE0;
    cpu.boot_rom[3] = 0x50;
    cpu.tick();
    cpu.tick();
    assert!(!cpu.boot_rom_active);
    for _ in 0..100 {
        cpu.tick();
        assert!(!cpu.boot_rom_active);
    }
}

#[test]
fn stat_upper_bits_read_back() {
    let mut cpu = cpu_with(&[]);
    cpu.write_byte(0xFF41, 0b0100_0011);
    cpu.ly = 20;
    cpu.ly_divider = 300;
    assert_eq!(cpu.read_byte(0xFF41) & 0xFC, 0b0100_0000);
    assert_eq!(cpu.read_byte(0xFF41) & 0x03, 0);
}
