use lib::cpu::CPU;

/// A running machine (boot ROM unmapped) with `code` at 0xC000 and the
/// stack at 0xDFF0.
fn cpu_with(code: &[u8]) -> Box<CPU> {
    let mut cpu = Box::new(CPU::new());
    cpu.boot_rom_active = false;
    cpu.pc = 0xC000;
    cpu.sp = 0xDFF0;
    for (i, b) in code.iter().enumerate() {
        cpu.memory[0xC000 + i] = *b;
    }
    cpu
}

fn hl(cpu: &CPU) -> u16 {
    ((cpu.registers.h as u16) << 8) | cpu.registers.l as u16
}

fn set_hl(cpu: &mut CPU, v: u16) {
    cpu.registers.h = (v >> 8) as u8;
    cpu.registers.l = v as u8;
}

#[test]
fn ld_sp_n16_loads_little_endian() {
    let mut cpu = cpu_with(&[0x34, 0x12]);
    cpu.ld_sp_n16();
    assert_eq!(cpu.sp, 0x1234);
    assert_eq!(cpu.pc, 0xC002);
}

#[test]
fn xor_a_clears_a_and_sets_z() {
    let mut cpu = cpu_with(&[]);
    cpu.registers.a = 0x55;
    cpu.registers.f = 0x10;
    cpu.xor_a();
    assert_eq!(cpu.registers.a, 0);
    assert_eq!(cpu.registers.f, 0x80);
}

#[test]
fn ld_16_bit_immediates() {
    let mut cpu = cpu_with(&[0x78, 0x56, 0xBC, 0x9A, 0xF0, 0xDE]);
    cpu.ld_hl_n16();
    assert_eq!((cpu.registers.h, cpu.registers.l), (0x56, 0x78));
    cpu.ld_de_n16();
    assert_eq!((cpu.registers.d, cpu.registers.e), (0x9A, 0xBC));
    cpu.ld_bc_n16();
    assert_eq!((cpu.registers.b, cpu.registers.c), (0xDE, 0xF0));
    assert_eq!(cpu.pc, 0xC006);
}

#[test]
fn ld_hlptrdecr_a_stores_then_decrements() {
    let mut cpu = cpu_with(&[]);
    set_hl(&mut cpu, 0xC100);
    cpu.registers.a = 9;
    cpu.ld_hlptrdecr_a();
    assert_eq!(cpu.memory[0xC100], 9);
    assert_eq!(hl(&cpu), 0xC0FF);
    set_hl(&mut cpu, 0x0000);
    cpu.ld_hlptrdecr_a();
    assert_eq!(cpu.memory[0x0000], 9);
    assert_eq!(hl(&cpu), 0xFFFF);
}

#[test]
fn ld_hlptrinc_a_stores_then_increments() {
    let mut cpu = cpu_with(&[]);
    set_hl(&mut cpu, 0xFFFE);
    cpu.registers.a = 3;
    cpu.ld_hlptrinc_a();
    assert_eq!(cpu.memory[0xFFFE], 3);
    assert_eq!(hl(&cpu), 0xFFFF);
    cpu.ld_hlptrinc_a();
    assert_eq!(cpu.memory[0xFFFF], 3);
    assert_eq!(hl(&cpu), 0x0000);
}

#[test]
fn jr_nz_jumps_backwards_when_z_clear() {
    let mut cpu = cpu_with(&[0xFE]);
    cpu.registers.f = 0x00;
    cpu.jr_nz_e8();
    assert_eq!(cpu.pc, 0xBFFF);
    let mut cpu = cpu_with(&[0xFE]);
    cpu.registers.f = 0x80;
    cpu.jr_nz_e8();
    assert_eq!(cpu.pc, 0xC001);
}

#[test]
fn jr_z_and_jr_e8() {
    let mut cpu = cpu_with(&[0x05]);
    cpu.registers.f = 0x80;
    cpu.jr_z_e8();
    assert_eq!(cpu.pc, 0xC006);
    let mut cpu = cpu_with(&[0x05]);
    cpu.jr_z_e8();
    assert_eq!(cpu.pc, 0xC001);
    let mut cpu = cpu_with(&[0x80]);
    cpu.jr_e8();
    assert_eq!(cpu.pc, 0xC001 - 0x80);
}

#[test]
fn jr_wraps_around_address_space() {
    let mut cpu = cpu_with(&[]);
    cpu.pc = 0xFFFE;
    cpu.memory[0xFFFE] = 0x05;
    cpu.jr_e8();
    assert_eq!(cpu.pc, 0x0004);
}

#[test]
fn nop_changes_nothing() {
    let mut cpu = cpu_with(&[]);
    cpu.registers.a = 1;
    cpu.nop();
    assert_eq!(cpu.pc, 0xC000);
    assert_eq!(cpu.registers.a, 1);
}

#[test]
fn bit_tests_set_z_when_bit_clear() {
    let mut cpu = cpu_with(&[]);
    cpu.registers.h = 0x80;
    cpu.registers.f = 0x10;
    cpu.bit7_h();
    assert_eq!(cpu.registers.f, 0x30);
    cpu.registers.h = 0x7F;
    cpu.registers.f = 0x40;
    cpu.bit7_h();
    assert_eq!(cpu.registers.f, 0xA0);
    cpu.registers.l = 0x00;
    cpu.registers.f = 0x00;
    cpu.bit_7_l();
    assert_eq!(cpu.registers.f, 0xA0);
    cpu.registers.l = 0xFF;
    cpu.bit_7_l();
    assert_eq!(cpu.registers.f, 0x20);
    cpu.registers.c = 0x01;
    cpu.registers.f = 0xD0;
    cpu.bit0_c();
    assert_eq!(cpu.registers.f, 0x30);
    cpu.registers.c = 0xFE;
    cpu.bit0_c();
    assert_eq!(cpu.registers.f, 0xB0);
}

#[test]
fn ld_8_bit_immediates() {
    let mut cpu = cpu_with(&[1, 2, 3, 4, 5, 6]);
    cpu.ld_c_n8();
    cpu.ld_a_n8();
    cpu.ld_b_n8();
    cpu.ld_e_n8();
    cpu.ld_l_n8();
    cpu.ld_d_n8();
    let r = cpu.registers;
    assert_eq!((r.c, r.a, r.b, r.e, r.l, r.d), (1, 2, 3, 4, 5, 6));
    assert_eq!(cpu.pc, 0xC006);
}

#[test]
fn high_page_stores_and_loads() {
    let mut cpu = cpu_with(&[0x85, 0x86]);
    cpu.registers.c = 0x80;
    cpu.registers.a = 5;
    cpu.ldh_cptr_a();
    assert_eq!(cpu.memory[0xFF80], 5);
    cpu.registers.a = 7;
    cpu.ldh_a8ptr_a();
    assert_eq!(cpu.memory[0xFF85], 7);
    cpu.memory[0xFF86] = 0x66;
    cpu.ldh_a_a8ptr();
    assert_eq!(cpu.registers.a, 0x66);
    assert_eq!(cpu.pc, 0xC002);
}

#[test]
fn ldh_reads_ly_through_memory_map() {
    let mut cpu = cpu_with(&[0x44]);
    cpu.ly = 99;
    cpu.ldh_a_a8ptr();
    assert_eq!(cpu.registers.a, 99);
}

#[test]
fn inc_8_bit_flags() {
    let mut cpu = cpu_with(&[]);
    cpu.registers.c = 0x0F;
    cpu.registers.f = 0x10;
    cpu.inc_c();
    assert_eq!(cpu.registers.c, 0x10);
    assert_eq!(cpu.registers.f, 0x30);
    cpu.registers.c = 0xFF;
    cpu.registers.f = 0x40;
    cpu.inc_c();
    assert_eq!(cpu.registers.c, 0x00);
    assert_eq!(cpu.registers.f, 0xA0);
    cpu.registers.b = 0x01;
    cpu.registers.f = 0x00;
    cpu.inc_b();
    assert_eq!((cpu.registers.b, cpu.registers.f), (0x02, 0x00));
}

#[test]
fn inc_every_register() {
    let mut cpu = cpu_with(&[]);
    cpu.inc_a();
    cpu.inc_b();
    cpu.inc_c();
    cpu.inc_d();
    cpu.inc_e();
    cpu.inc_h();
    cpu.inc_l();
    let r = cpu.registers;
    assert_eq!((r.a, r.b, r.c, r.d, r.e, r.h, r.l), (1, 1, 1, 1, 1, 1, 1));
    assert_eq!(r.f, 0);
}

#[test]
fn dec_8_bit_flags() {
    let mut cpu = cpu_with(&[]);
    cpu.registers.b = 0x10;
    cpu.registers.f = 0x10;
    cpu.dec_b();
    assert_eq!(cpu.registers.b, 0x0F);
    assert_eq!(cpu.registers.f, 0x70);
    cpu.registers.b = 0x01;
    cpu.registers.f = 0x00;
    cpu.dec_b();
    assert_eq!(cpu.registers.b, 0x00);
    assert_eq!(cpu.registers.f, 0xC0);
    cpu.registers.a = 0x00;
    cpu.dec_a();
    assert_eq!(cpu.registers.a, 0xFF);
    assert_eq!(cpu.registers.f, 0x60);
}

#[test]
fn dec_every_register() {
    let mut cpu = cpu_with(&[]);
    cpu.registers.c = 5;
    cpu.registers.d = 5;
    cpu.registers.e = 5;
    cpu.dec_c();
    cpu.dec_d();
    cpu.dec_e();
    assert_eq!((cpu.registers.c, cpu.registers.d, cpu.registers.e), (4, 4, 4));
    assert_eq!(cpu.registers.f, 0x40);
}

#[test]
fn register_to_register_loads() {
    let mut cpu = cpu_with(&[]);
    cpu.registers.a = 0x11;
    cpu.ld_c_a();
    cpu.ld_h_a();
    cpu.ld_d_a();
    cpu.ld_b_a();
    cpu.ld_e_a();
    let r = cpu.registers;
    assert_eq!((r.c, r.h, r.d, r.b, r.e), (0x11, 0x11, 0x11, 0x11, 0x11));
    cpu.registers.e = 0x22;
    cpu.ld_a_e();
    assert_eq!(cpu.registers.a, 0x22);
    cpu.registers.h = 0x33;
    cpu.ld_a_h();
    assert_eq!(cpu.registers.a, 0x33);
    cpu.registers.l = 0x44;
    cpu.ld_a_l();
    assert_eq!(cpu.registers.a, 0x44);
    cpu.registers.b = 0x55;
    cpu.ld_a_b();
    assert_eq!(cpu.registers.a, 0x55);
    cpu.registers.c = 0x66;
    cpu.ld_a_c();
    assert_eq!(cpu.registers.a, 0x66);
    cpu.ld_b_b();
    assert_eq!(cpu.registers.b, 0x55);
}

#[test]
fn indirect_loads_and_stores() {
    let mut cpu = cpu_with(&[]);
    cpu.registers.d = 0xC2;
    cpu.registers.e = 0x00;
    cpu.memory[0xC200] = 0xAA;
    cpu.ld_a_deptr();
    assert_eq!(cpu.registers.a, 0xAA);
    cpu.registers.a = 0xBB;
    cpu.ld_deptr_a();
    assert_eq!(cpu.memory[0xC200], 0xBB);
    cpu.registers.b = 0xC3;
    cpu.registers.c = 0x01;
    cpu.ld_bcptr_a();
    assert_eq!(cpu.memory[0xC301], 0xBB);
    cpu.memory[0xC301] = 0xCC;
    cpu.ld_a_bcptr();
    assert_eq!(cpu.registers.a, 0xCC);
    set_hl(&mut cpu, 0xC400);
    cpu.ld_hlptr_a();
    assert_eq!(cpu.memory[0xC400], 0xCC);
    cpu.memory[0xC400] = 0x12;
    cpu.ld_a_hlptr();
    assert_eq!(cpu.registers.a, 0x12);
    cpu.ld_e_hlptr();
    assert_eq!(cpu.registers.e, 0x12);
    cpu.ld_d_hlptr();
    assert_eq!(cpu.registers.d, 0x12);
}

#[test]
fn ld_a_hlptrinc_loads_then_increments() {
    let mut cpu = cpu_with(&[]);
    set_hl(&mut cpu, 0xC0FF);
    cpu.memory[0xC0FF] = 0x9C;
    cpu.ld_a_hlptrinc();
    assert_eq!(cpu.registers.a, 0x9C);
    assert_eq!(hl(&cpu), 0xC100);
}

#[test]
fn ld_hlptr_n8_stores_immediate() {
    let mut cpu = cpu_with(&[0x5D]);
    set_hl(&mut cpu, 0xC800);
    cpu.ld_hlptr_n8();
    assert_eq!(cpu.memory[0xC800], 0x5D);
    assert_eq!(cpu.pc, 0xC001);
}

#[test]
fn absolute_loads_and_stores() {
    let mut cpu = cpu_with(&[0x00, 0xD0, 0x00, 0xD0]);
    cpu.registers.a = 0x42;
    cpu.ld_a16ptr_a();
    assert_eq!(cpu.memory[0xD000], 0x42);
    cpu.registers.a = 0;
    cpu.ld_a_a16ptr();
    assert_eq!(cpu.registers.a, 0x42);
    assert_eq!(cpu.pc, 0xC004);
}

#[test]
fn call_pushes_return_address() {
    let mut cpu = cpu_with(&[0x00, 0x20]);
    cpu.call_a16();
    assert_eq!(cpu.pc, 0x2000);
    assert_eq!(cpu.sp, 0xDFEE);
    assert_eq!(cpu.memory[0xDFEF], 0xC0);
    assert_eq!(cpu.memory[0xDFEE], 0x02);
}

#[test]
fn push_and_pop_pairs() {
    let mut cpu = cpu_with(&[]);
    cpu.registers.b = 0x12;
    cpu.registers.c = 0x34;
    cpu.push_bc();
    assert_eq!(cpu.sp, 0xDFEE);
    assert_eq!(cpu.memory[0xDFEF], 0x12);
    assert_eq!(cpu.memory[0xDFEE], 0x34);
    cpu.pop_de();
    assert_eq!((cpu.registers.d, cpu.registers.e), (0x12, 0x34));
    cpu.push_de();
    cpu.pop_hl();
    assert_eq!((cpu.registers.h, cpu.registers.l), (0x12, 0x34));
    cpu.push_hl();
    cpu.pop_bc();
    assert_eq!((cpu.registers.b, cpu.registers.c), (0x12, 0x34));
    assert_eq!(cpu.sp, 0xDFF0);
}

#[test]
fn pop_af_clears_low_nibble_of_f() {
    let mut cpu = cpu_with(&[]);
    cpu.memory[0xDFF0] = 0xFF;
    cpu.memory[0xDFF1] = 0x12;
    cpu.pop_af();
    assert_eq!(cpu.registers.a, 0x12);
    assert_eq!(cpu.registers.f, 0xF0);
    assert_eq!(cpu.sp, 0xDFF2);
}

#[test]
fn push_af_pushes_a_then_f() {
    let mut cpu = cpu_with(&[]);
    cpu.registers.a = 0xAB;
    cpu.registers.f = 0xC0;
    cpu.push_af();
    assert_eq!(cpu.memory[0xDFEF], 0xAB);
    assert_eq!(cpu.memory[0xDFEE], 0xC0);
    assert_eq!(cpu.sp, 0xDFEE);
}

#[test]
fn stack_wraps_at_zero() {
    let mut cpu = cpu_with(&[]);
    cpu.sp = 0x0001;
    cpu.registers.d = 0xAA;
    cpu.registers.e = 0xBB;
    cpu.push_de();
    assert_eq!(cpu.sp, 0xFFFF);
    assert_eq!(cpu.memory[0x0000], 0xAA);
    assert_eq!(cpu.memory[0xFFFF], 0xBB);
}

#[test]
fn rl_c_rotates_through_carry() {
    let mut cpu = cpu_with(&[]);
    cpu.registers.c = 0x80;
    cpu.registers.f = 0x00;
    cpu.rl_c();
    assert_eq!(cpu.registers.c, 0x00);
    assert_eq!(cpu.registers.f, 0x90);
    cpu.registers.c = 0x40;
    cpu.registers.f = 0x10;
    cpu.rl_c();
    assert_eq!(cpu.registers.c, 0x81);
    assert_eq!(cpu.registers.f, 0x00);
}

#[test]
fn rla_never_sets_z() {
    let mut cpu = cpu_with(&[]);
    cpu.registers.a = 0x80;
    cpu.registers.f = 0x80;
    cpu.rla();
    assert_eq!(cpu.registers.a, 0x00);
    assert_eq!(cpu.registers.f, 0x10);
    cpu.registers.a = 0x01;
    cpu.registers.f = 0x10;
    cpu.rla();
    assert_eq!(cpu.registers.a, 0x03);
    assert_eq!(cpu.registers.f, 0x00);
}

#[test]
fn rrca_rotates_bit_0_into_bit_7_and_carry() {
    let mut cpu = cpu_with(&[]);
    cpu.registers.a = 0x01;
    cpu.registers.f = 0x80;
    cpu.rrca();
    assert_eq!(cpu.registers.a, 0x80);
    assert_eq!(cpu.registers.f, 0x10);
    cpu.rrca();
    assert_eq!(cpu.registers.a, 0x40);
    assert_eq!(cpu.registers.f, 0x00);
}

#[test]
fn sixteen_bit_inc_dec() {
    let mut cpu = cpu_with(&[]);
    set_hl(&mut cpu, 0x00FF);
    cpu.inc_hl();
    assert_eq!(hl(&cpu), 0x0100);
    cpu.registers.d = 0xFF;
    cpu.registers.e = 0xFF;
    cpu.inc_de();
    assert_eq!((cpu.registers.d, cpu.registers.e), (0, 0));
    cpu.registers.b = 0;
    cpu.registers.c = 0;
    cpu.registers.f = 0xB0;
    cpu.dec_bc();
    assert_eq!((cpu.registers.b, cpu.registers.c), (0xFF, 0xFF));
    assert_eq!(cpu.registers.f, 0xB0);
}

#[test]
fn ret_pops_program_counter() {
    let mut cpu = cpu_with(&[]);
    cpu.memory[0xDFF0] = 0x34;
    cpu.memory[0xDFF1] = 0x12;
    cpu.ret();
    assert_eq!(cpu.pc, 0x1234);
    assert_eq!(cpu.sp, 0xDFF2);
}

#[test]
fn conditional_returns() {
    let mut cpu = cpu_with(&[]);
    cpu.memory[0xDFF0] = 0x34;
    cpu.memory[0xDFF1] = 0x12;
    cpu.registers.f = 0x00;
    cpu.ret_z();
    assert_eq!((cpu.pc, cpu.sp), (0xC000, 0xDFF0));
    cpu.ret_c();
    assert_eq!((cpu.pc, cpu.sp), (0xC000, 0xDFF0));
    cpu.ret_nz();
    assert_eq!((cpu.pc, cpu.sp), (0x1234, 0xDFF2));
    let mut cpu = cpu_with(&[]);
    cpu.memory[0xDFF0] = 0x78;
    cpu.memory[0xDFF1] = 0x56;
    cpu.registers.f = 0x90;
    cpu.ret_nz();
    assert_eq!(cpu.pc, 0xC000);
    cpu.ret_c();
    assert_eq!(cpu.pc, 0x5678);
    let mut cpu = cpu_with(&[]);
    cpu.memory[0xDFF0] = 0x78;
    cpu.memory[0xDFF1] = 0x56;
    cpu.registers.f = 0x80;
    cpu.ret_z();
    assert_eq!(cpu.pc, 0x5678);
}

#[test]
fn reti_returns_and_enables_interrupts() {
    let mut cpu = cpu_with(&[]);
    cpu.memory[0xDFF0] = 0x00;
    cpu.memory[0xDFF1] = 0x01;
    cpu.reti();
    assert_eq!(cpu.pc, 0x0100);
    assert!(cpu.ime);
}

#[test]
fn compare_flags() {
    let mut cpu = cpu_with(&[0x01, 0x10, 0x05]);
    cpu.registers.a = 0x10;
    cpu.cp_a_n8();
    assert_eq!(cpu.registers.f, 0x60);
    cpu.registers.a = 0x05;
    cpu.cp_a_n8();
    assert_eq!(cpu.registers.f, 0x50);
    cpu.cp_a_n8();
    assert_eq!(cpu.registers.f, 0xC0);
    assert_eq!(cpu.registers.a, 0x05);
    set_hl(&mut cpu, 0xC500);
    cpu.memory[0xC500] = 0x06;
    cpu.cp_a_hlptr();
    assert_eq!(cpu.registers.f, 0x70);
}

#[test]
fn sub_a_b_flags() {
    let mut cpu = cpu_with(&[]);
    cpu.registers.a = 0x10;
    cpu.registers.b = 0x01;
    cpu.sub_a_b();
    assert_eq!((cpu.registers.a, cpu.registers.f), (0x0F, 0x60));
    cpu.registers.a = 0x01;
    cpu.registers.b = 0x02;
    cpu.sub_a_b();
    assert_eq!((cpu.registers.a, cpu.registers.f), (0xFF, 0x70));
    cpu.registers.a = 0x3A;
    cpu.registers.b = 0x3A;
    cpu.sub_a_b();
    assert_eq!((cpu.registers.a, cpu.registers.f), (0x00, 0xC0));
}

#[test]
fn add_flags() {
    let mut cpu = cpu_with(&[]);
    cpu.registers.a = 0x3A;
    set_hl(&mut cpu, 0xC600);
    cpu.memory[0xC600] = 0xC6;
    cpu.add_a_hlptr();
    assert_eq!((cpu.registers.a, cpu.registers.f), (0x00, 0xB0));
    cpu.registers.a = 0x88;
    cpu.add_a_a();
    assert_eq!((cpu.registers.a, cpu.registers.f), (0x10, 0x30));
    cpu.registers.a = 0x01;
    cpu.registers.d = 0x02;
    cpu.add_a_d();
    assert_eq!((cpu.registers.a, cpu.registers.f), (0x03, 0x00));
    cpu.registers.h = 0x0F;
    cpu.add_a_h();
    assert_eq!((cpu.registers.a, cpu.registers.f), (0x12, 0x20));
}

#[test]
fn logic_ops() {
    let mut cpu = cpu_with(&[0x0F]);
    cpu.registers.a = 0xF0;
    cpu.registers.f = 0x50;
    cpu.and_a_n8();
    assert_eq!((cpu.registers.a, cpu.registers.f), (0x00, 0xA0));
    cpu.registers.a = 0x0C;
    cpu.registers.c = 0x0A;
    cpu.and_a_c();
    assert_eq!((cpu.registers.a, cpu.registers.f), (0x08, 0x20));
    cpu.and_a_a();
    assert_eq!((cpu.registers.a, cpu.registers.f), (0x08, 0x20));
    cpu.registers.f = 0x70;
    cpu.or_a_c();
    assert_eq!((cpu.registers.a, cpu.registers.f), (0x0A, 0x00));
    cpu.registers.a = 0;
    cpu.registers.b = 0;
    cpu.or_a_b();
    assert_eq!((cpu.registers.a, cpu.registers.f), (0x00, 0x80));
    cpu.registers.a = 0x0A;
    cpu.xor_a_c();
    assert_eq!((cpu.registers.a, cpu.registers.f), (0x00, 0x80));
    set_hl(&mut cpu, 0xC700);
    cpu.memory[0xC700] = 0x81;
    cpu.or_a_hlptr();
    assert_eq!((cpu.registers.a, cpu.registers.f), (0x81, 0x00));
}

#[test]
fn cpl_keeps_z_and_c() {
    let mut cpu = cpu_with(&[]);
    cpu.registers.a = 0x35;
    cpu.registers.f = 0x90;
    cpu.cpl();
    assert_eq!((cpu.registers.a, cpu.registers.f), (0xCA, 0xF0));
    cpu.registers.f = 0x00;
    cpu.cpl();
    assert_eq!((cpu.registers.a, cpu.registers.f), (0x35, 0x60));
}

#[test]
fn swap_and_res() {
    let mut cpu = cpu_with(&[]);
    cpu.registers.a = 0xAB;
    cpu.registers.f = 0x70;
    cpu.swap_a();
    assert_eq!((cpu.registers.a, cpu.registers.f), (0xBA, 0x00));
    cpu.registers.a = 0;
    cpu.swap_a();
    assert_eq!(cpu.registers.f, 0x80);
    cpu.registers.a = 0xFF;
    cpu.registers.f = 0x30;
    cpu.res_0_a();
    assert_eq!((cpu.registers.a, cpu.registers.f), (0xFE, 0x30));
}

#[test]
fn interrupt_enable_flag() {
    let mut cpu = cpu_with(&[]);
    cpu.ei();
    assert!(cpu.ime);
    cpu.di();
    assert!(!cpu.ime);
}

#[test]
fn absolute_jumps() {
    let mut cpu = cpu_with(&[0x50, 0x01]);
    cpu.jp_a16();
    assert_eq!(cpu.pc, 0x0150);
    let mut cpu = cpu_with(&[0x50, 0x01]);
    cpu.jp_z_a16();
    assert_eq!(cpu.pc, 0xC002);
    let mut cpu = cpu_with(&[0x50, 0x01]);
    cpu.registers.f = 0x80;
    cpu.jp_z_a16();
    assert_eq!(cpu.pc, 0x0150);
    set_hl(&mut cpu, 0x4321);
    cpu.jp_hl();
    assert_eq!(cpu.pc, 0x4321);
}

#[test]
fn rst_28_pushes_pc() {
    let mut cpu = cpu_with(&[]);
    cpu.rst_28();
    assert_eq!(cpu.pc, 0x0028);
    assert_eq!(cpu.sp, 0xDFEE);
    assert_eq!(cpu.memory[0xDFEF], 0xC0);
    assert_eq!(cpu.memory[0xDFEE], 0x00);
}

#[test]
fn add_hl_de_flags() {
    let mut cpu = cpu_with(&[]);
    set_hl(&mut cpu, 0x0FFF);
    cpu.registers.d = 0x00;
    cpu.registers.e = 0x01;
    cpu.registers.f = 0xC0;
    cpu.add_hl_de();
    assert_eq!(hl(&cpu), 0x1000);
    assert_eq!(cpu.registers.f, 0xA0);
    set_hl(&mut cpu, 0xFFFF);
    cpu.registers.f = 0x00;
    cpu.add_hl_de();
    assert_eq!(hl(&cpu), 0x0000);
    assert_eq!(cpu.registers.f, 0x30);
}

#[test]
fn add_sp_e8_signed_operand_unsigned_flags() {
    let mut cpu = cpu_with(&[0x08]);
    cpu.sp = 0xFFF8;
    cpu.registers.f = 0xC0;
    cpu.add_sp_e8();
    assert_eq!(cpu.sp, 0x0000);
    assert_eq!(cpu.registers.f, 0x30);
    let mut cpu = cpu_with(&[0xFF]);
    cpu.sp = 0x0100;
    cpu.add_sp_e8();
    assert_eq!(cpu.sp, 0x00FF);
    assert_eq!(cpu.registers.f, 0x00);
    assert_eq!(cpu.pc, 0xC001);
}

#[test]
fn inc_hlptr_updates_memory_and_flags() {
    let mut cpu = cpu_with(&[]);
    set_hl(&mut cpu, 0xC900);
    cpu.memory[0xC900] = 0xFF;
    cpu.registers.f = 0x10;
    cpu.inc_hlptr();
    assert_eq!(cpu.memory[0xC900], 0x00);
    assert_eq!(cpu.registers.f, 0xB0);
}
