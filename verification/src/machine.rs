//! One machine cycle: the divider and LCD line timers, the V-Blank
//! interrupt, then the decoding and execution of one instruction.
use vstd::prelude::*;

use crate::bits::{add16, add8, carry_flag, zero_flag};
use crate::cpu::{CPU, CpuView, Reg8};

verus! {

impl CpuView {
    /// The instruction with opcode `op`, or `None` when it is not implemented.
    pub open spec fn step(self, op: u8) -> Option<CpuView> {
        match op {
            0x31 => Some(self.advance(2).with_sp(self.imm16())),
            0xAF => Some(self.xor_a_with(self.registers.a)),
            0x21 => Some(self.ld_rr_n16(Reg8::H, Reg8::L)),
            0x32 => Some(self.ld_a_to(self.hl()).set_pair(Reg8::H, Reg8::L, add16(self.hl(), -1))),
            0x20 => Some(self.jr_if(!zero_flag(self.registers.f))),
            0x00 => Some(self),
            0x0E => Some(self.ld_r_n8(Reg8::C)),
            0x3E => Some(self.ld_r_n8(Reg8::A)),
            0xE2 => Some(self.ld_a_to((0xFF00 + self.registers.c) as u16)),
            0x0C => Some(self.inc_r(Reg8::C)),
            0x77 => Some(self.ld_a_to(self.hl())),
            0xE0 => Some(self.advance(1).ld_a_to((0xFF00 + self.imm8()) as u16)),
            0x11 => Some(self.ld_rr_n16(Reg8::D, Reg8::E)),
            0x1A => Some(self.ld_a_from(self.de())),
            0xCD => Some(self.call_a16()),
            0x4F => Some(self.ld_r_r(Reg8::C, Reg8::A)),
            0x06 => Some(self.ld_r_n8(Reg8::B)),
            0xC5 => Some(self.push_rr(Reg8::B, Reg8::C)),
            0x17 => Some(self.rla()),
            0xC1 => Some(self.pop_rr(Reg8::B, Reg8::C)),
            0x05 => Some(self.dec_r(Reg8::B)),
            0x22 => Some(self.ld_a_to(self.hl()).set_pair(Reg8::H, Reg8::L, add16(self.hl(), 1))),
            0x23 => Some(self.set_pair(Reg8::H, Reg8::L, add16(self.hl(), 1))),
            0xC9 => Some(self.ret_if(true)),
            0x13 => Some(self.set_pair(Reg8::D, Reg8::E, add16(self.de(), 1))),
            0x7B => Some(self.ld_r_r(Reg8::A, Reg8::E)),
            0xFE => Some(self.advance(1).cp_a(self.imm8())),
            0xEA => Some(self.advance(2).ld_a_to(self.imm16())),
            0x3D => Some(self.dec_r(Reg8::A)),
            0x28 => Some(self.jr_if(zero_flag(self.registers.f))),
            0x67 => Some(self.ld_r_r(Reg8::H, Reg8::A)),
            0x57 => Some(self.ld_r_r(Reg8::D, Reg8::A)),
            0x04 => Some(self.inc_r(Reg8::B)),
            0x1E => Some(self.ld_r_n8(Reg8::E)),
            0xF0 => Some(self.advance(1).ld_a_from((0xFF00 + self.imm8()) as u16)),
            0x0D => Some(self.dec_r(Reg8::C)),
            0x2E => Some(self.ld_r_n8(Reg8::L)),
            0x18 => Some(self.jr_if(true)),
            0x1D => Some(self.dec_r(Reg8::E)),
            0x24 => Some(self.inc_r(Reg8::H)),
            0x7C => Some(self.ld_r_r(Reg8::A, Reg8::H)),
            0x90 => Some(self.sub_a(self.registers.b)),
            0x15 => Some(self.dec_r(Reg8::D)),
            0x16 => Some(self.ld_r_n8(Reg8::D)),
            0xBE => Some(self.cp_a(self.read(self.hl()))),
            0x7D => Some(self.ld_r_r(Reg8::A, Reg8::L)),
            0x86 => Some(self.add_a(self.read(self.hl()))),
            0xC3 => Some(self.jp_if(true)),
            0xF3 => Some(self.with_ime(false)),
            0x78 => Some(self.ld_r_r(Reg8::A, Reg8::B)),
            0x36 => Some(self.advance(1).write(self.hl(), self.imm8())),
            0x2A => Some(self.ld_a_from(self.hl()).set_pair(Reg8::H, Reg8::L, add16(self.hl(), 1))),
            0x01 => Some(self.ld_rr_n16(Reg8::B, Reg8::C)),
            0x0A => Some(self.ld_a_from(self.bc())),
            0x0B => Some(self.set_pair(Reg8::B, Reg8::C, add16(self.bc(), -1))),
            0xB1 => Some(self.or_a(self.registers.c)),
            0xFB => Some(self.with_ime(true)),
            0x2F => Some(self.cpl()),
            0xE6 => Some(self.advance(1).and_a(self.imm8())),
            0x47 => Some(self.ld_r_r(Reg8::B, Reg8::A)),
            0xB0 => Some(self.or_a(self.registers.b)),
            0xA9 => Some(self.xor_a_with(self.registers.c)),
            0xA1 => Some(self.and_a(self.registers.c)),
            0x79 => Some(self.ld_r_r(Reg8::A, Reg8::C)),
            0xEF => Some(self.rst(0x0028)),
            0x87 => Some(self.add_a(self.registers.a)),
            0xE1 => Some(self.pop_rr(Reg8::H, Reg8::L)),
            0x5F => Some(self.ld_r_r(Reg8::E, Reg8::A)),
            0x19 => Some(self.add_hl_de()),
            0x5E => Some(self.set_reg(Reg8::E, self.read(self.hl()))),
            0x56 => Some(self.set_reg(Reg8::D, self.read(self.hl()))),
            0xD5 => Some(self.push_rr(Reg8::D, Reg8::E)),
            0xE9 => Some(self.with_pc(self.hl())),
            0x12 => Some(self.ld_a_to(self.de())),
            0xE5 => Some(self.push_rr(Reg8::H, Reg8::L)),
            0xD1 => Some(self.pop_rr(Reg8::D, Reg8::E)),
            0xF5 => Some(self.push_rr(Reg8::A, Reg8::F)),
            0xFA => Some(self.advance(2).ld_a_from(self.imm16())),
            0xA7 => Some(self.and_a(self.registers.a)),
            0x1C => Some(self.inc_r(Reg8::E)),
            0xCA => Some(self.jp_if(zero_flag(self.registers.f))),
            0xC8 => Some(self.ret_if(zero_flag(self.registers.f))),
            0x7E => Some(self.ld_a_from(self.hl())),
            0xF1 => Some(self.pop_af()),
            0xC0 => Some(self.ret_if(!zero_flag(self.registers.f))),
            0xD8 => Some(self.ret_if(carry_flag(self.registers.f))),
            0x0F => Some(self.rrca()),
            0xB6 => Some(self.or_a(self.read(self.hl()))),
            0x40 => Some(self.ld_r_r(Reg8::B, Reg8::B)),
            0x14 => Some(self.inc_r(Reg8::D)),
            0x02 => Some(self.ld_a_to(self.bc())),
            0xE8 => Some(self.add_sp_e8()),
            0x2C => Some(self.inc_r(Reg8::L)),
            0x82 => Some(self.add_a(self.registers.d)),
            0x84 => Some(self.add_a(self.registers.h)),
            0x34 => Some(self.inc_hlptr()),
            0x3C => Some(self.inc_r(Reg8::A)),
            0xD9 => Some(self.ret_if(true).with_ime(true)),
            _ => None,
        }
    }

    /// The instruction with opcode `op` after the 0xCB prefix, or `None`.
    pub open spec fn step_cb(self, op: u8) -> Option<CpuView> {
        match op {
            0x7C => Some(self.bit_test(self.registers.h, 0x80)),
            0x7D => Some(self.bit_test(self.registers.l, 0x80)),
            0x11 => Some(self.rl_r(Reg8::C)),
            0x37 => Some(self.swap_a()),
            0x87 => Some(self.set_reg(Reg8::A, self.registers.a & 0xFE)),
            0x41 => Some(self.bit_test(self.registers.c, 0x01)),
            _ => None,
        }
    }

    /// Whether one more cycle keeps the timer counters free of overflow.
    pub open spec fn timers_ok(self) -> bool {
        &&& self.div_counter < u32::MAX
        &&& !self.boot_rom_active ==> {
            &&& self.ly_divider < u32::MAX
            &&& self.ly_divider + 1 >= 456 ==> self.ly < 255
        }
    }

    /// The divider counts cycles; every 256 it increments DIV (0xFF04).
    pub open spec fn after_div(self) -> CpuView {
        if self.div_counter + 1 >= 256 {
            CpuView { div_counter: 0, ..self.poke(0xFF04, add8(self.memory[0xFF04], 1)) }
        } else {
            CpuView { div_counter: (self.div_counter + 1) as u32, ..self }
        }
    }

    /// Once the boot ROM is unmapped, a line lasts 456 cycles; LY wraps
    /// after 154 lines, and reaching line 144 requests V-Blank (bit 0 of 0xFF0F).
    pub open spec fn after_line(self) -> CpuView {
        if self.boot_rom_active {
            self
        } else if self.ly_divider + 1 >= 456 {
            let ly = ((self.ly + 1) % 154) as u8;
            let s = CpuView { ly_divider: 0, ly, ..self };
            if ly == 144 {
                s.poke(0xFF0F, self.memory[0xFF0F] | 0x01)
            } else {
                s
            }
        } else {
            CpuView { ly_divider: (self.ly_divider + 1) as u32, ..self }
        }
    }

    /// With interrupts enabled and V-Blank both enabled (0xFFFF) and
    /// requested (0xFF0F): the request is cleared, interrupts disabled, PC
    /// pushed, and execution continues at 0x0040.
    pub open spec fn after_interrupt(self) -> CpuView {
        if self.ime && (self.memory[0xFFFF] & self.memory[0xFF0F]) & 0x01 != 0 {
            self.poke(0xFF0F, self.memory[0xFF0F] & !0x01u8).with_ime(false).rst(0x0040)
        } else {
            self
        }
    }

    /// The instruction at PC fetched and executed, or `None` when its
    /// opcode is not implemented.
    pub open spec fn next_instruction(self) -> Option<CpuView> {
        let op = self.imm8();
        let s = self.advance(1);
        if op == 0xCB {
            s.advance(1).step_cb(s.imm8())
        } else {
            s.step(op)
        }
    }

    /// One full cycle, or `None` where it would fail: a timer counter at its
    /// limit, or an opcode that is not implemented.
    pub open spec fn tick(self) -> Option<CpuView> {
        if self.timers_ok() {
            self.after_div().after_line().after_interrupt().next_instruction()
        } else {
            None
        }
    }
}

/// Whether `execute` implements the opcode.
pub fn is_implemented(opcode: u8) -> (r: bool)
    ensures
        forall|s: CpuView| (#[trigger] s.step(opcode) is Some) == r,
{
    match opcode {
        0x31 | 0xAF | 0x21 | 0x32 | 0x20 | 0x00 | 0x0E | 0x3E | 0xE2 | 0x0C | 0x77 | 0xE0 |
        0x11 | 0x1A | 0xCD | 0x4F | 0x06 | 0xC5 | 0x17 | 0xC1 | 0x05 | 0x22 | 0x23 | 0xC9 |
        0x13 | 0x7B | 0xFE | 0xEA | 0x3D | 0x28 | 0x67 | 0x57 | 0x04 | 0x1E | 0xF0 | 0x0D |
        0x2E | 0x18 | 0x1D | 0x24 | 0x7C | 0x90 | 0x15 | 0x16 | 0xBE | 0x7D | 0x86 | 0xC3 |
        0xF3 | 0x78 | 0x36 | 0x2A | 0x01 | 0x0A | 0x0B | 0xB1 | 0xFB | 0x2F | 0xE6 | 0x47 |
        0xB0 | 0xA9 | 0xA1 | 0x79 | 0xEF | 0x87 | 0xE1 | 0x5F | 0x19 | 0x5E | 0x56 | 0xD5 |
        0xE9 | 0x12 | 0xE5 | 0xD1 | 0xF5 | 0xFA | 0xA7 | 0x1C | 0xCA | 0xC8 | 0x7E | 0xF1 |
        0xC0 | 0xD8 | 0x0F | 0xB6 | 0x40 | 0x14 | 0x02 | 0xE8 | 0x2C | 0x82 | 0x84 | 0x34 |
        0x3C | 0xD9 => true,
        _ => false,
    }
}

/// Whether `execute_cb` implements the opcode.
pub fn is_implemented_cb(opcode: u8) -> (r: bool)
    ensures
        forall|s: CpuView| (#[trigger] s.step_cb(opcode) is Some) == r,
{
    match opcode {
        0x7C | 0x7D | 0x11 | 0x37 | 0x87 | 0x41 => true,
        _ => false,
    }
}

impl CPU {
    /// Advances the divider and LCD line timers by one cycle.
    pub fn tick_timers(&mut self)
        requires
            old(self)@.timers_ok(),
        ensures
            final(self)@ == old(self)@.after_div().after_line(),
    {
        self.div_counter = self.div_counter + 1;
        if self.div_counter >= 256 {
            self.div_counter = 0;
            self.memory[0xFF04] = self.memory[0xFF04].wrapping_add(1);
        }
        if !self.boot_rom_active {
            self.ly_divider = self.ly_divider + 1;
            if self.ly_divider >= 456 {
                self.ly_divider = 0;
                self.ly = (self.ly + 1) % 154;
                if self.ly == 144 {
                    self.memory[0xFF0F] = self.memory[0xFF0F] | 0x01;
                }
            }
        }
    }

    /// Dispatches a pending V-Blank interrupt, if interrupts are enabled.
    pub fn service_interrupt(&mut self)
        ensures
            final(self)@ == old(self)@.after_interrupt(),
    {
        if self.ime {
            let ie = self.memory[0xFFFF];
            let if_reg = self.memory[0xFF0F];
            let pending = ie & if_reg;
            if (pending & 0x01) != 0 {
                self.ime = false;
                self.memory[0xFF0F] = self.memory[0xFF0F] & !0x01u8;
                self.call_to(0x0040);
            }
        }
    }

    /// Fetches the instruction at PC, with its 0xCB prefix if any, and runs it.
    pub fn execute_next(&mut self)
        requires
            old(self)@.next_instruction() is Some,
        ensures
            final(self)@ == old(self)@.next_instruction().unwrap(),
    {
        let fetched_opcode = self.fetch_byte();
        let prefix_opcode = 0xCB;
        if fetched_opcode == prefix_opcode {
            let cb_opcode = self.fetch_byte();
            self.execute_cb(cb_opcode);
        } else {
            self.execute(fetched_opcode);
        }
    }

    /// One machine cycle: timers, interrupt dispatch, then one instruction.
    pub fn tick(&mut self)
        requires
            old(self)@.tick() is Some,
        ensures
            final(self)@ == old(self)@.tick().unwrap(),
    {
        self.tick_timers();
        self.service_interrupt();
        self.execute_next();
    }

    /// Runs the instruction with the given (unprefixed) opcode.
    pub fn execute(&mut self, opcode: u8)
        requires
            old(self)@.step(opcode) is Some,
        ensures
            final(self)@ == old(self)@.step(opcode).unwrap(),
    {
        match opcode {
            0x31 => self.ld_sp_n16(),
            0xAF => self.xor_a(),
            0x21 => self.ld_hl_n16(),
            0x32 => self.ld_hlptrdecr_a(),
            0x20 => self.jr_nz_e8(),
            0x00 => self.nop(),
            0x0E => self.ld_c_n8(),
            0x3E => self.ld_a_n8(),
            0xE2 => self.ldh_cptr_a(),
            0x0C => self.inc_c(),
            0x77 => self.ld_hlptr_a(),
            0xE0 => self.ldh_a8ptr_a(),
            0x11 => self.ld_de_n16(),
            0x1A => self.ld_a_deptr(),
            0xCD => self.call_a16(),
            0x4F => self.ld_c_a(),
            0x06 => self.ld_b_n8(),
            0xC5 => self.push_bc(),
            0x17 => self.rla(),
            0xC1 => self.pop_bc(),
            0x05 => self.dec_b(),
            0x22 => self.ld_hlptrinc_a(),
            0x23 => self.inc_hl(),
            0xC9 => self.ret(),
            0x13 => self.inc_de(),
            0x7B => self.ld_a_e(),
            0xFE => self.cp_a_n8(),
            0xEA => self.ld_a16ptr_a(),
            0x3D => self.dec_a(),
            0x28 => self.jr_z_e8(),
            0x67 => self.ld_h_a(),
            0x57 => self.ld_d_a(),
            0x04 => self.inc_b(),
            0x1E => self.ld_e_n8(),
            0xF0 => self.ldh_a_a8ptr(),
            0x0D => self.dec_c(),
            0x2E => self.ld_l_n8(),
            0x18 => self.jr_e8(),
            0x1D => self.dec_e(),
            0x24 => self.inc_h(),
            0x7C => self.ld_a_h(),
            0x90 => self.sub_a_b(),
            0x15 => self.dec_d(),
            0x16 => self.ld_d_n8(),
            0xBE => self.cp_a_hlptr(),
            0x7D => self.ld_a_l(),
            0x86 => self.add_a_hlptr(),
            0xC3 => self.jp_a16(),
            0xF3 => self.di(),
            0x78 => self.ld_a_b(),
            0x36 => self.ld_hlptr_n8(),
            0x2A => self.ld_a_hlptrinc(),
            0x01 => self.ld_bc_n16(),
            0x0A => self.ld_a_bcptr(),
            0x0B => self.dec_bc(),
            0xB1 => self.or_a_c(),
            0xFB => self.ei(),
            0x2F => self.cpl(),
            0xE6 => self.and_a_n8(),
            0x47 => self.ld_b_a(),
            0xB0 => self.or_a_b(),
            0xA9 => self.xor_a_c(),
            0xA1 => self.and_a_c(),
            0x79 => self.ld_a_c(),
            0xEF => self.rst_28(),
            0x87 => self.add_a_a(),
            0xE1 => self.pop_hl(),
            0x5F => self.ld_e_a(),
            0x19 => self.add_hl_de(),
            0x5E => self.ld_e_hlptr(),
            0x56 => self.ld_d_hlptr(),
            0xD5 => self.push_de(),
            0xE9 => self.jp_hl(),
            0x12 => self.ld_deptr_a(),
            0xE5 => self.push_hl(),
            0xD1 => self.pop_de(),
            0xF5 => self.push_af(),
            0xFA => self.ld_a_a16ptr(),
            0xA7 => self.and_a_a(),
            0x1C => self.inc_e(),
            0xCA => self.jp_z_a16(),
            0xC8 => self.ret_z(),
            0x7E => self.ld_a_hlptr(),
            0xF1 => self.pop_af(),
            0xC0 => self.ret_nz(),
            0xD8 => self.ret_c(),
            0x0F => self.rrca(),
            0xB6 => self.or_a_hlptr(),
            0x40 => self.ld_b_b(),
            0x14 => self.inc_d(),
            0x02 => self.ld_bcptr_a(),
            0xE8 => self.add_sp_e8(),
            0x2C => self.inc_l(),
            0x82 => self.add_a_d(),
            0x84 => self.add_a_h(),
            0x34 => self.inc_hlptr(),
            0x3C => self.inc_a(),
            0xD9 => self.reti(),
            _ => {},
        }
    }

    /// Runs the instruction with the given opcode after the 0xCB prefix.
    pub fn execute_cb(&mut self, opcode: u8)
        requires
            old(self)@.step_cb(opcode) is Some,
        ensures
            final(self)@ == old(self)@.step_cb(opcode).unwrap(),
    {
        match opcode {
            0x7C => self.bit7_h(),
            0x7D => self.bit_7_l(),
            0x11 => self.rl_c(),
            0x37 => self.swap_a(),
            0x87 => self.res_0_a(),
            0x41 => self.bit0_c(),
            _ => {},
        }
    }
}

} // verus!
