//! The instruction set: one method per implemented opcode, each proved to
//! perform the state transition that `isa` gives for it.
use vstd::prelude::*;

use crate::bits::{
    add16, add8, carry_flag, flags, high_byte, join16, lemma_mask_bounds, lemma_word_bytes,
    low_byte, make_flags, offset16, split16, zero_flag,
};
use crate::cpu::{CPU, Reg8};

verus! {

impl CPU {
    // ---- helpers shared by the instructions ----

    fn hl(&self) -> (v: u16)
        ensures
            v == self@.hl(),
    {
        join16(self.registers.h, self.registers.l)
    }

    fn de(&self) -> (v: u16)
        ensures
            v == self@.de(),
    {
        join16(self.registers.d, self.registers.e)
    }

    fn bc(&self) -> (v: u16)
        ensures
            v == self@.bc(),
    {
        join16(self.registers.b, self.registers.c)
    }

    fn set_hl(&mut self, v: u16)
        ensures
            final(self)@ == old(self)@.set_pair(Reg8::H, Reg8::L, v),
    {
        let (hi, lo) = split16(v);
        self.registers.h = hi;
        self.registers.l = lo;
    }

    fn set_de(&mut self, v: u16)
        ensures
            final(self)@ == old(self)@.set_pair(Reg8::D, Reg8::E, v),
    {
        let (hi, lo) = split16(v);
        self.registers.d = hi;
        self.registers.e = lo;
    }

    fn set_bc(&mut self, v: u16)
        ensures
            final(self)@ == old(self)@.set_pair(Reg8::B, Reg8::C, v),
    {
        let (hi, lo) = split16(v);
        self.registers.b = hi;
        self.registers.c = lo;
    }

    /// Fetches the little-endian word after the opcode.
    fn fetch_word(&mut self) -> (v: u16)
        ensures
            v == old(self)@.imm16(),
            final(self)@ == old(self)@.advance(2),
    {
        let low = self.fetch_byte();
        let high = self.fetch_byte();
        join16(high, low)
    }

    /// Pushes `hi` then `lo`.
    fn push_bytes(&mut self, hi: u8, lo: u8)
        ensures
            final(self)@ == old(self)@.push(hi, lo),
    {
        self.sp = self.sp.wrapping_sub(1);
        let sp1 = self.sp;
        self.write_byte(sp1, hi);
        self.sp = self.sp.wrapping_sub(1);
        let sp2 = self.sp;
        self.write_byte(sp2, lo);
    }

    /// Pops a word; returns its high and low byte.
    fn pop_bytes(&mut self) -> (r: (u8, u8))
        ensures
            r.0 == old(self)@.read(add16(old(self).sp, 1)),
            r.1 == old(self)@.read(old(self).sp),
            final(self)@ == old(self)@.pop(),
    {
        let low = self.read_byte(self.sp);
        self.sp = self.sp.wrapping_add(1);
        let high = self.read_byte(self.sp);
        self.sp = self.sp.wrapping_add(1);
        (high, low)
    }

    /// Pushes the program counter and jumps to `target`.
    pub(crate) fn call_to(&mut self, target: u16)
        ensures
            final(self)@ == old(self)@.push(high_byte(old(self).pc), low_byte(old(self).pc)).with_pc(
                target,
            ),
    {
        let return_address = self.pc;
        let (hi_byte, lo_byte) = split16(return_address);
        self.push_bytes(hi_byte, lo_byte);
        self.pc = target;
    }

    /// Pops the word on top of the stack into the program counter.
    fn return_to_caller(&mut self)
        ensures
            final(self)@ == old(self)@.ret_if(true),
    {
        let (high, low) = self.pop_bytes();
        self.pc = join16(high, low);
    }

    /// Fetches a signed offset and, when `cond` holds, jumps by it.
    fn jump_relative_if(&mut self, cond: bool)
        ensures
            final(self)@ == old(self)@.jr_if(cond),
    {
        let e8 = self.fetch_byte();
        if cond {
            self.pc = offset16(self.pc, e8);
        }
    }

    fn inc8(&mut self, v: u8) -> (res: u8)
        ensures
            res == add8(v, 1),
            final(self)@ == old(self)@.set_reg(
                Reg8::F,
                flags(res == 0, false, v & 0x0F == 0x0F, carry_flag(old(self).registers.f)),
            ),
    {
        let result = v.wrapping_add(1);
        self.registers.f = make_flags(
            result == 0,
            false,
            (v & 0x0F) == 0x0F,
            (self.registers.f & 0x10) != 0,
        );
        result
    }

    fn dec8(&mut self, v: u8) -> (res: u8)
        ensures
            res == add8(v, -1),
            final(self)@ == old(self)@.set_reg(
                Reg8::F,
                flags(res == 0, true, v & 0x0F == 0, carry_flag(old(self).registers.f)),
            ),
    {
        let result = v.wrapping_sub(1);
        self.registers.f = make_flags(
            result == 0,
            true,
            (v & 0x0F) == 0x00,
            (self.registers.f & 0x10) != 0,
        );
        result
    }

    fn add_to_a(&mut self, v: u8)
        ensures
            final(self)@ == old(self)@.add_a(v),
    {
        let original = self.registers.a;
        proof {
            lemma_mask_bounds(original, 0);
            lemma_mask_bounds(v, 0);
        }
        let result = original.wrapping_add(v);
        self.registers.f = make_flags(
            result == 0,
            false,
            (original & 0x0F) + (v & 0x0F) > 0x0F,
            (original as u16) + (v as u16) > 0xFF,
        );
        self.registers.a = result;
    }

    fn compare_with_a(&mut self, v: u8)
        ensures
            final(self)@ == old(self)@.cp_a(v),
    {
        let a = self.registers.a;
        self.registers.f = make_flags(a == v, true, (a & 0x0F) < (v & 0x0F), a < v);
    }

    fn and_with_a(&mut self, v: u8)
        ensures
            final(self)@ == old(self)@.and_a(v),
    {
        self.registers.a = self.registers.a & v;
        self.registers.f = make_flags(self.registers.a == 0, false, true, false);
    }

    fn or_with_a(&mut self, v: u8)
        ensures
            final(self)@ == old(self)@.or_a(v),
    {
        self.registers.a = self.registers.a | v;
        self.registers.f = make_flags(self.registers.a == 0, false, false, false);
    }

    fn xor_with_a(&mut self, v: u8)
        ensures
            final(self)@ == old(self)@.xor_a_with(v),
    {
        self.registers.a = self.registers.a ^ v;
        self.registers.f = make_flags(self.registers.a == 0, false, false, false);
    }

    fn test_bit(&mut self, v: u8, mask: u8)
        ensures
            final(self)@ == old(self)@.bit_test(v, mask),
    {
        self.registers.f = make_flags((v & mask) == 0, false, true, (self.registers.f & 0x10) != 0);
    }

    // ---- the instructions ----

    /// `LD SP, n16` (0x31).
    pub fn ld_sp_n16(&mut self)
        ensures
            final(self)@ == old(self)@.advance(2).with_sp(old(self)@.imm16()),
    {
        let n16 = self.fetch_word();
        self.sp = n16;
    }

    /// `XOR A, A` (0xAF): clears A and sets only Z.
    pub fn xor_a(&mut self)
        ensures
            final(self)@ == old(self)@.xor_a_with(old(self).registers.a),
    {
        let a = self.registers.a;
        self.xor_with_a(a);
    }

    /// `LD HL, n16` (0x21).
    pub fn ld_hl_n16(&mut self)
        ensures
            final(self)@ == old(self)@.ld_rr_n16(Reg8::H, Reg8::L),
    {
        let low = self.fetch_byte();
        let high = self.fetch_byte();
        self.registers.l = low;
        self.registers.h = high;
        proof {
            lemma_word_bytes(high, low);
        }
    }

    /// `LD [HL-], A` (0x32).
    pub fn ld_hlptrdecr_a(&mut self)
        ensures
            final(self)@ == old(self)@.ld_a_to(old(self)@.hl()).set_pair(Reg8::H, Reg8::L, add16(old(self)@.hl(), -1)),
    {
        let hl = self.hl();
        let a = self.registers.a;
        self.write_byte(hl, a);
        self.set_hl(hl.wrapping_sub(1));
    }

    /// `JR NZ, e8` (0x20).
    pub fn jr_nz_e8(&mut self)
        ensures
            final(self)@ == old(self)@.jr_if(!zero_flag(old(self).registers.f)),
    {
        let z_flag = (self.registers.f & 0x80) != 0;
        self.jump_relative_if(!z_flag);
    }

    /// `NOP` (0x00).
    pub fn nop(&mut self)
        ensures
            final(self)@ == old(self)@,
    {
    }

    /// `BIT 7, H` (0xCB 0x7C).
    pub fn bit7_h(&mut self)
        ensures
            final(self)@ == old(self)@.bit_test(old(self).registers.h, 0x80),
    {
        let h = self.registers.h;
        self.test_bit(h, 0x80);
    }

    /// `LD C, n8`.
    pub fn ld_c_n8(&mut self)
        ensures
            final(self)@ == old(self)@.ld_r_n8(Reg8::C),
    {
        let n8 = self.fetch_byte();
        self.registers.c = n8;
    }

    /// `LD A, n8`.
    pub fn ld_a_n8(&mut self)
        ensures
            final(self)@ == old(self)@.ld_r_n8(Reg8::A),
    {
        let n8 = self.fetch_byte();
        self.registers.a = n8;
    }

    /// `LDH [C], A` (0xE2): stores A at 0xFF00 + C.
    pub fn ldh_cptr_a(&mut self)
        ensures
            final(self)@ == old(self)@.ld_a_to((0xFF00 + old(self).registers.c) as u16),
    {
        let address = 0xFF00 + (self.registers.c as u16);
        let a = self.registers.a;
        self.write_byte(address, a);
    }

    /// `INC C`.
    pub fn inc_c(&mut self)
        ensures
            final(self)@ == old(self)@.inc_r(Reg8::C),
    {
        let original = self.registers.c;
        let result = self.inc8(original);
        self.registers.c = result;
    }

    /// `LD [HL], A` (0x77).
    pub fn ld_hlptr_a(&mut self)
        ensures
            final(self)@ == old(self)@.ld_a_to(old(self)@.hl()),
    {
        let hl = self.hl();
        let a = self.registers.a;
        self.write_byte(hl, a);
    }

    /// `LDH [a8], A` (0xE0): stores A at 0xFF00 + a8.
    pub fn ldh_a8ptr_a(&mut self)
        ensures
            final(self)@ == old(self)@.advance(1).ld_a_to((0xFF00 + old(self)@.imm8()) as u16),
    {
        let a8 = self.fetch_byte();
        let address = 0xFF00 + (a8 as u16);
        let a = self.registers.a;
        self.write_byte(address, a);
    }

    /// `LD DE, n16` (0x11).
    pub fn ld_de_n16(&mut self)
        ensures
            final(self)@ == old(self)@.ld_rr_n16(Reg8::D, Reg8::E),
    {
        let low = self.fetch_byte();
        let high = self.fetch_byte();
        self.registers.e = low;
        self.registers.d = high;
        proof {
            lemma_word_bytes(high, low);
        }
    }

    /// `LD A, [DE]` (0x1A).
    pub fn ld_a_deptr(&mut self)
        ensures
            final(self)@ == old(self)@.ld_a_from(old(self)@.de()),
    {
        let de = self.de();
        self.registers.a = self.read_byte(de);
    }

    /// `CALL a16` (0xCD).
    pub fn call_a16(&mut self)
        ensures
            final(self)@ == old(self)@.call_a16(),
    {
        let dest_address = self.fetch_word();
        self.call_to(dest_address);
    }

    /// `LD C, A`.
    pub fn ld_c_a(&mut self)
        ensures
            final(self)@ == old(self)@.ld_r_r(Reg8::C, Reg8::A),
    {
        self.registers.c = self.registers.a;
    }

    /// `LD B, n8`.
    pub fn ld_b_n8(&mut self)
        ensures
            final(self)@ == old(self)@.ld_r_n8(Reg8::B),
    {
        let n8 = self.fetch_byte();
        self.registers.b = n8;
    }

    /// `PUSH BC`.
    pub fn push_bc(&mut self)
        ensures
            final(self)@ == old(self)@.push_rr(Reg8::B, Reg8::C),
    {
        let high = self.registers.b;
        let low = self.registers.c;
        self.push_bytes(high, low);
    }

    /// `RL C` (0xCB 0x11).
    pub fn rl_c(&mut self)
        ensures
            final(self)@ == old(self)@.rl_r(Reg8::C),
    {
        let original = self.registers.c;
        let old_carry: u8 = if (self.registers.f & 0x10) != 0 { 1 } else { 0 };
        let new_carry = (original & 0x80) != 0;
        let result = (original << 1) | old_carry;
        self.registers.c = result;
        self.registers.f = make_flags(result == 0, false, false, new_carry);
    }

    /// `RLA` (0x17).
    pub fn rla(&mut self)
        ensures
            final(self)@ == old(self)@.rla(),
    {
        let original = self.registers.a;
        let old_carry: u8 = if (self.registers.f & 0x10) != 0 { 1 } else { 0 };
        let new_carry = (original & 0x80) != 0;
        self.registers.a = (original << 1) | old_carry;
        self.registers.f = make_flags(false, false, false, new_carry);
    }

    /// `POP BC`.
    pub fn pop_bc(&mut self)
        ensures
            final(self)@ == old(self)@.pop_rr(Reg8::B, Reg8::C),
    {
        let (high, low) = self.pop_bytes();
        self.registers.c = low;
        self.registers.b = high;
    }

    /// `DEC B`.
    pub fn dec_b(&mut self)
        ensures
            final(self)@ == old(self)@.dec_r(Reg8::B),
    {
        let original = self.registers.b;
        let result = self.dec8(original);
        self.registers.b = result;
    }

    /// `LD [HL+], A` (0x22).
    pub fn ld_hlptrinc_a(&mut self)
        ensures
            final(self)@ == old(self)@.ld_a_to(old(self)@.hl()).set_pair(Reg8::H, Reg8::L, add16(old(self)@.hl(), 1)),
    {
        let hl = self.hl();
        let a = self.registers.a;
        self.write_byte(hl, a);
        self.set_hl(hl.wrapping_add(1));
    }

    /// `INC HL` (0x23).
    pub fn inc_hl(&mut self)
        ensures
            final(self)@ == old(self)@.set_pair(Reg8::H, Reg8::L, add16(old(self)@.hl(), 1)),
    {
        let hl = self.hl();
        self.set_hl(hl.wrapping_add(1));
    }

    /// `RET` (0xC9).
    pub fn ret(&mut self)
        ensures
            final(self)@ == old(self)@.ret_if(true),
    {
        self.return_to_caller();
    }

    /// `INC DE` (0x13).
    pub fn inc_de(&mut self)
        ensures
            final(self)@ == old(self)@.set_pair(Reg8::D, Reg8::E, add16(old(self)@.de(), 1)),
    {
        let de = self.de();
        self.set_de(de.wrapping_add(1));
    }

    /// `LD A, E`.
    pub fn ld_a_e(&mut self)
        ensures
            final(self)@ == old(self)@.ld_r_r(Reg8::A, Reg8::E),
    {
        self.registers.a = self.registers.e;
    }

    /// `CP A, n8` (0xFE).
    pub fn cp_a_n8(&mut self)
        ensures
            final(self)@ == old(self)@.advance(1).cp_a(old(self)@.imm8()),
    {
        let n8 = self.fetch_byte();
        self.compare_with_a(n8);
    }

    /// `LD [a16], A` (0xEA).
    pub fn ld_a16ptr_a(&mut self)
        ensures
            final(self)@ == old(self)@.advance(2).ld_a_to(old(self)@.imm16()),
    {
        let a16 = self.fetch_word();
        let a = self.registers.a;
        self.write_byte(a16, a);
    }

    /// `DEC A`.
    pub fn dec_a(&mut self)
        ensures
            final(self)@ == old(self)@.dec_r(Reg8::A),
    {
        let original = self.registers.a;
        let result = self.dec8(original);
        self.registers.a = result;
    }

    /// `JR Z, e8` (0x28).
    pub fn jr_z_e8(&mut self)
        ensures
            final(self)@ == old(self)@.jr_if(zero_flag(old(self).registers.f)),
    {
        let z_flag = (self.registers.f & 0x80) != 0;
        self.jump_relative_if(z_flag);
    }

    /// `LD H, A`.
    pub fn ld_h_a(&mut self)
        ensures
            final(self)@ == old(self)@.ld_r_r(Reg8::H, Reg8::A),
    {
        self.registers.h = self.registers.a;
    }

    /// `LD D, A`.
    pub fn ld_d_a(&mut self)
        ensures
            final(self)@ == old(self)@.ld_r_r(Reg8::D, Reg8::A),
    {
        self.registers.d = self.registers.a;
    }

    /// `INC B`.
    pub fn inc_b(&mut self)
        ensures
            final(self)@ == old(self)@.inc_r(Reg8::B),
    {
        let original = self.registers.b;
        let result = self.inc8(original);
        self.registers.b = result;
    }

    /// `LD E, n8`.
    pub fn ld_e_n8(&mut self)
        ensures
            final(self)@ == old(self)@.ld_r_n8(Reg8::E),
    {
        let n8 = self.fetch_byte();
        self.registers.e = n8;
    }

    /// `LDH A, [a8]` (0xF0): loads A from 0xFF00 + a8.
    pub fn ldh_a_a8ptr(&mut self)
        ensures
            final(self)@ == old(self)@.advance(1).ld_a_from((0xFF00 + old(self)@.imm8()) as u16),
    {
        let a8 = self.fetch_byte();
        let address = 0xFF00 + (a8 as u16);
        self.registers.a = self.read_byte(address);
    }

    /// `DEC C`.
    pub fn dec_c(&mut self)
        ensures
            final(self)@ == old(self)@.dec_r(Reg8::C),
    {
        let original = self.registers.c;
        let result = self.dec8(original);
        self.registers.c = result;
    }

    /// `LD L, n8`.
    pub fn ld_l_n8(&mut self)
        ensures
            final(self)@ == old(self)@.ld_r_n8(Reg8::L),
    {
        let n8 = self.fetch_byte();
        self.registers.l = n8;
    }

    /// `JR e8` (0x18).
    pub fn jr_e8(&mut self)
        ensures
            final(self)@ == old(self)@.jr_if(true),
    {
        self.jump_relative_if(true);
    }

    /// `DEC E`.
    pub fn dec_e(&mut self)
        ensures
            final(self)@ == old(self)@.dec_r(Reg8::E),
    {
        let original = self.registers.e;
        let result = self.dec8(original);
        self.registers.e = result;
    }

    /// `INC H`.
    pub fn inc_h(&mut self)
        ensures
            final(self)@ == old(self)@.inc_r(Reg8::H),
    {
        let original = self.registers.h;
        let result = self.inc8(original);
        self.registers.h = result;
    }

    /// `LD A, H`.
    pub fn ld_a_h(&mut self)
        ensures
            final(self)@ == old(self)@.ld_r_r(Reg8::A, Reg8::H),
    {
        self.registers.a = self.registers.h;
    }

    /// `SUB A, B` (0x90).
    pub fn sub_a_b(&mut self)
        ensures
            final(self)@ == old(self)@.sub_a(old(self).registers.b),
    {
        let a = self.registers.a;
        let b = self.registers.b;
        let result = a.wrapping_sub(b);
        self.registers.a = result;
        self.registers.f = make_flags(result == 0, true, (a & 0x0F) < (b & 0x0F), a < b);
    }

    /// `DEC D`.
    pub fn dec_d(&mut self)
        ensures
            final(self)@ == old(self)@.dec_r(Reg8::D),
    {
        let original = self.registers.d;
        let result = self.dec8(original);
        self.registers.d = result;
    }

    /// `LD D, n8`.
    pub fn ld_d_n8(&mut self)
        ensures
            final(self)@ == old(self)@.ld_r_n8(Reg8::D),
    {
        let n8 = self.fetch_byte();
        self.registers.d = n8;
    }

    /// `CP A, [HL]` (0xBE).
    pub fn cp_a_hlptr(&mut self)
        ensures
            final(self)@ == old(self)@.cp_a(old(self)@.read(old(self)@.hl())),
    {
        let hl = self.hl();
        let val = self.read_byte(hl);
        self.compare_with_a(val);
    }

    /// `BIT 7, L` (0xCB 0x7D).
    pub fn bit_7_l(&mut self)
        ensures
            final(self)@ == old(self)@.bit_test(old(self).registers.l, 0x80),
    {
        let l = self.registers.l;
        self.test_bit(l, 0x80);
    }

    /// `LD A, L`.
    pub fn ld_a_l(&mut self)
        ensures
            final(self)@ == old(self)@.ld_r_r(Reg8::A, Reg8::L),
    {
        self.registers.a = self.registers.l;
    }

    /// `LD A, B`.
    pub fn ld_a_b(&mut self)
        ensures
            final(self)@ == old(self)@.ld_r_r(Reg8::A, Reg8::B),
    {
        self.registers.a = self.registers.b;
    }

    /// `ADD A, [HL]` (0x86).
    pub fn add_a_hlptr(&mut self)
        ensures
            final(self)@ == old(self)@.add_a(old(self)@.read(old(self)@.hl())),
    {
        let hl = self.hl();
        let val = self.read_byte(hl);
        self.add_to_a(val);
    }

    /// `DI` (0xF3): disables interrupts.
    pub fn di(&mut self)
        ensures
            final(self)@ == old(self)@.with_ime(false),
    {
        self.ime = false;
    }

    /// `JP a16` (0xC3).
    pub fn jp_a16(&mut self)
        ensures
            final(self)@ == old(self)@.jp_if(true),
    {
        let address = self.fetch_word();
        self.pc = address;
    }

    /// `LD [HL], n8` (0x36).
    pub fn ld_hlptr_n8(&mut self)
        ensures
            final(self)@ == old(self)@.advance(1).write(old(self)@.hl(), old(self)@.imm8()),
    {
        let hl = self.hl();
        let n8 = self.fetch_byte();
        self.write_byte(hl, n8);
    }

    /// `LD A, [HL+]` (0x2A).
    pub fn ld_a_hlptrinc(&mut self)
        ensures
            final(self)@ == old(self)@.ld_a_from(old(self)@.hl()).set_pair(Reg8::H, Reg8::L, add16(old(self)@.hl(), 1)),
    {
        let hl = self.hl();
        self.registers.a = self.read_byte(hl);
        self.set_hl(hl.wrapping_add(1));
    }

    /// `LD BC, n16` (0x01).
    pub fn ld_bc_n16(&mut self)
        ensures
            final(self)@ == old(self)@.ld_rr_n16(Reg8::B, Reg8::C),
    {
        let low = self.fetch_byte();
        let high = self.fetch_byte();
        self.registers.b = high;
        self.registers.c = low;
        proof {
            lemma_word_bytes(high, low);
        }
    }

    /// `DEC BC` (0x0B).
    pub fn dec_bc(&mut self)
        ensures
            final(self)@ == old(self)@.set_pair(Reg8::B, Reg8::C, add16(old(self)@.bc(), -1)),
    {
        let bc = self.bc();
        self.set_bc(bc.wrapping_sub(1));
    }

    /// `OR A, C` (0xB1).
    pub fn or_a_c(&mut self)
        ensures
            final(self)@ == old(self)@.or_a(old(self).registers.c),
    {
        let c = self.registers.c;
        self.or_with_a(c);
    }

    /// `EI` (0xFB): enables interrupts.
    pub fn ei(&mut self)
        ensures
            final(self)@ == old(self)@.with_ime(true),
    {
        self.ime = true;
    }

    /// `CPL` (0x2F).
    pub fn cpl(&mut self)
        ensures
            final(self)@ == old(self)@.cpl(),
    {
        let f = self.registers.f;
        self.registers.a = !self.registers.a;
        self.registers.f = make_flags((f & 0x80) != 0, true, true, (f & 0x10) != 0);
    }

    /// `AND A, n8` (0xE6).
    pub fn and_a_n8(&mut self)
        ensures
            final(self)@ == old(self)@.advance(1).and_a(old(self)@.imm8()),
    {
        let n8 = self.fetch_byte();
        self.and_with_a(n8);
    }

    /// `SWAP A` (0xCB 0x37).
    pub fn swap_a(&mut self)
        ensures
            final(self)@ == old(self)@.swap_a(),
    {
        let value = self.registers.a;
        let result = (value >> 4) | (value << 4);
        self.registers.a = result;
        self.registers.f = make_flags(result == 0, false, false, false);
    }

    /// `LD B, A`.
    pub fn ld_b_a(&mut self)
        ensures
            final(self)@ == old(self)@.ld_r_r(Reg8::B, Reg8::A),
    {
        self.registers.b = self.registers.a;
    }

    /// `OR A, B` (0xB0).
    pub fn or_a_b(&mut self)
        ensures
            final(self)@ == old(self)@.or_a(old(self).registers.b),
    {
        let b = self.registers.b;
        self.or_with_a(b);
    }

    /// `XOR A, C` (0xA9).
    pub fn xor_a_c(&mut self)
        ensures
            final(self)@ == old(self)@.xor_a_with(old(self).registers.c),
    {
        let c = self.registers.c;
        self.xor_with_a(c);
    }

    /// `AND A, C` (0xA1).
    pub fn and_a_c(&mut self)
        ensures
            final(self)@ == old(self)@.and_a(old(self).registers.c),
    {
        let c = self.registers.c;
        self.and_with_a(c);
    }

    /// `LD A, C`.
    pub fn ld_a_c(&mut self)
        ensures
            final(self)@ == old(self)@.ld_r_r(Reg8::A, Reg8::C),
    {
        self.registers.a = self.registers.c;
    }

    /// `RST 28h` (0xEF).
    pub fn rst_28(&mut self)
        ensures
            final(self)@ == old(self)@.rst(0x0028),
    {
        self.call_to(0x0028);
    }

    /// `ADD A, A` (0x87).
    pub fn add_a_a(&mut self)
        ensures
            final(self)@ == old(self)@.add_a(old(self).registers.a),
    {
        let a = self.registers.a;
        self.add_to_a(a);
    }

    /// `POP HL`.
    pub fn pop_hl(&mut self)
        ensures
            final(self)@ == old(self)@.pop_rr(Reg8::H, Reg8::L),
    {
        let (high, low) = self.pop_bytes();
        self.registers.l = low;
        self.registers.h = high;
    }

    /// `LD E, A`.
    pub fn ld_e_a(&mut self)
        ensures
            final(self)@ == old(self)@.ld_r_r(Reg8::E, Reg8::A),
    {
        self.registers.e = self.registers.a;
    }

    /// `ADD HL, DE` (0x19).
    pub fn add_hl_de(&mut self)
        ensures
            final(self)@ == old(self)@.add_hl_de(),
    {
        let hl = self.hl();
        let de = self.de();
        proof {
            lemma_mask_bounds(0, hl);
            lemma_mask_bounds(0, de);
        }
        let result = hl.wrapping_add(de);
        let z = (self.registers.f & 0x80) != 0;
        self.registers.f = make_flags(
            z,
            false,
            (hl & 0x0FFF) + (de & 0x0FFF) > 0x0FFF,
            (hl as u32) + (de as u32) > 0xFFFF,
        );
        self.set_hl(result);
    }

    /// `LD E, [HL]` (0x5E).
    pub fn ld_e_hlptr(&mut self)
        ensures
            final(self)@ == old(self)@.set_reg(Reg8::E, old(self)@.read(old(self)@.hl())),
    {
        let hl = self.hl();
        let val = self.read_byte(hl);
        self.registers.e = val;
    }

    /// `LD D, [HL]` (0x56).
    pub fn ld_d_hlptr(&mut self)
        ensures
            final(self)@ == old(self)@.set_reg(Reg8::D, old(self)@.read(old(self)@.hl())),
    {
        let hl = self.hl();
        let val = self.read_byte(hl);
        self.registers.d = val;
    }

    /// `PUSH DE`.
    pub fn push_de(&mut self)
        ensures
            final(self)@ == old(self)@.push_rr(Reg8::D, Reg8::E),
    {
        let high = self.registers.d;
        let low = self.registers.e;
        self.push_bytes(high, low);
    }

    /// `JP HL` (0xE9).
    pub fn jp_hl(&mut self)
        ensures
            final(self)@ == old(self)@.with_pc(old(self)@.hl()),
    {
        let hl = self.hl();
        self.pc = hl;
    }

    /// `RES 0, A` (0xCB 0x87).
    pub fn res_0_a(&mut self)
        ensures
            final(self)@ == old(self)@.set_reg(Reg8::A, old(self).registers.a & 0xFE),
    {
        self.registers.a = self.registers.a & 0b1111_1110;
    }

    /// `LD [DE], A` (0x12).
    pub fn ld_deptr_a(&mut self)
        ensures
            final(self)@ == old(self)@.ld_a_to(old(self)@.de()),
    {
        let de = self.de();
        let a = self.registers.a;
        self.write_byte(de, a);
    }

    /// `PUSH HL`.
    pub fn push_hl(&mut self)
        ensures
            final(self)@ == old(self)@.push_rr(Reg8::H, Reg8::L),
    {
        let high = self.registers.h;
        let low = self.registers.l;
        self.push_bytes(high, low);
    }

    /// `POP DE`.
    pub fn pop_de(&mut self)
        ensures
            final(self)@ == old(self)@.pop_rr(Reg8::D, Reg8::E),
    {
        let (high, low) = self.pop_bytes();
        self.registers.e = low;
        self.registers.d = high;
    }

    /// `PUSH AF`.
    pub fn push_af(&mut self)
        ensures
            final(self)@ == old(self)@.push_rr(Reg8::A, Reg8::F),
    {
        let high = self.registers.a;
        let low = self.registers.f;
        self.push_bytes(high, low);
    }

    /// `LD A, [a16]` (0xFA).
    pub fn ld_a_a16ptr(&mut self)
        ensures
            final(self)@ == old(self)@.advance(2).ld_a_from(old(self)@.imm16()),
    {
        let a16 = self.fetch_word();
        self.registers.a = self.read_byte(a16);
    }

    /// `AND A, A` (0xA7).
    pub fn and_a_a(&mut self)
        ensures
            final(self)@ == old(self)@.and_a(old(self).registers.a),
    {
        let a = self.registers.a;
        self.and_with_a(a);
    }

    /// `INC E`.
    pub fn inc_e(&mut self)
        ensures
            final(self)@ == old(self)@.inc_r(Reg8::E),
    {
        let original = self.registers.e;
        let result = self.inc8(original);
        self.registers.e = result;
    }

    /// `JP Z, a16` (0xCA).
    pub fn jp_z_a16(&mut self)
        ensures
            final(self)@ == old(self)@.jp_if(zero_flag(old(self).registers.f)),
    {
        let a16 = self.fetch_word();
        if (self.registers.f & 0x80) != 0 {
            self.pc = a16;
        }
    }

    /// `RET Z` (0xC8).
    pub fn ret_z(&mut self)
        ensures
            final(self)@ == old(self)@.ret_if(zero_flag(old(self).registers.f)),
    {
        let is_set = (self.registers.f & 0x80) != 0;
        if is_set {
            self.return_to_caller();
        }
    }

    /// `LD A, [HL]` (0x7E).
    pub fn ld_a_hlptr(&mut self)
        ensures
            final(self)@ == old(self)@.ld_a_from(old(self)@.hl()),
    {
        let hl = self.hl();
        let val = self.read_byte(hl);
        self.registers.a = val;
    }

    /// `POP AF` (0xF1): the low nibble of F stays clear.
    pub fn pop_af(&mut self)
        ensures
            final(self)@ == old(self)@.pop_af(),
    {
        let (high, low) = self.pop_bytes();
        self.registers.f = low & 0xF0;
        self.registers.a = high;
    }

    /// `RET NZ` (0xC0).
    pub fn ret_nz(&mut self)
        ensures
            final(self)@ == old(self)@.ret_if(!zero_flag(old(self).registers.f)),
    {
        let is_set = (self.registers.f & 0x80) != 0;
        if !is_set {
            self.return_to_caller();
        }
    }

    /// `RET C` (0xD8).
    pub fn ret_c(&mut self)
        ensures
            final(self)@ == old(self)@.ret_if(carry_flag(old(self).registers.f)),
    {
        let is_set = (self.registers.f & 0x10) != 0;
        if is_set {
            self.return_to_caller();
        }
    }

    /// `RRCA` (0x0F).
    pub fn rrca(&mut self)
        ensures
            final(self)@ == old(self)@.rrca(),
    {
        let original = self.registers.a;
        let bit_0 = original & 0b0000_0001;
        self.registers.a = (original >> 1) | (bit_0 << 7);
        self.registers.f = make_flags(false, false, false, bit_0 != 0);
    }

    /// `OR A, [HL]` (0xB6).
    pub fn or_a_hlptr(&mut self)
        ensures
            final(self)@ == old(self)@.or_a(old(self)@.read(old(self)@.hl())),
    {
        let hl = self.hl();
        let val = self.read_byte(hl);
        self.or_with_a(val);
    }

    /// `LD B, B`.
    pub fn ld_b_b(&mut self)
        ensures
            final(self)@ == old(self)@.ld_r_r(Reg8::B, Reg8::B),
    {
        self.registers.b = self.registers.b;
    }

    /// `INC D`.
    pub fn inc_d(&mut self)
        ensures
            final(self)@ == old(self)@.inc_r(Reg8::D),
    {
        let original = self.registers.d;
        let result = self.inc8(original);
        self.registers.d = result;
    }

    /// `LD [BC], A` (0x02).
    pub fn ld_bcptr_a(&mut self)
        ensures
            final(self)@ == old(self)@.ld_a_to(old(self)@.bc()),
    {
        let bc = self.bc();
        let a = self.registers.a;
        self.write_byte(bc, a);
    }

    /// `ADD SP, e8` (0xE8).
    pub fn add_sp_e8(&mut self)
        ensures
            final(self)@ == old(self)@.add_sp_e8(),
    {
        let e8 = self.fetch_byte();
        let original = self.sp;
        proof {
            lemma_mask_bounds(e8, original);
        }
        self.sp = offset16(original, e8);
        self.registers.f = make_flags(
            false,
            false,
            (original & 0x000F) + ((e8 & 0x0F) as u16) > 0x000F,
            (original & 0x00FF) + (e8 as u16) > 0x00FF,
        );
    }

    /// `INC L`.
    pub fn inc_l(&mut self)
        ensures
            final(self)@ == old(self)@.inc_r(Reg8::L),
    {
        let original = self.registers.l;
        let result = self.inc8(original);
        self.registers.l = result;
    }

    /// `BIT 0, C` (0xCB 0x41).
    pub fn bit0_c(&mut self)
        ensures
            final(self)@ == old(self)@.bit_test(old(self).registers.c, 0x01),
    {
        let c = self.registers.c;
        self.test_bit(c, 0x01);
    }

    /// `ADD A, D` (0x82).
    pub fn add_a_d(&mut self)
        ensures
            final(self)@ == old(self)@.add_a(old(self).registers.d),
    {
        let d = self.registers.d;
        self.add_to_a(d);
    }

    /// `INC [HL]` (0x34).
    pub fn inc_hlptr(&mut self)
        ensures
            final(self)@ == old(self)@.inc_hlptr(),
    {
        let hl = self.hl();
        let val = self.read_byte(hl);
        let result = self.inc8(val);
        self.write_byte(hl, result);
    }

    /// `INC A`.
    pub fn inc_a(&mut self)
        ensures
            final(self)@ == old(self)@.inc_r(Reg8::A),
    {
        let original = self.registers.a;
        let result = self.inc8(original);
        self.registers.a = result;
    }

    /// `RETI` (0xD9): returns and enables interrupts.
    pub fn reti(&mut self)
        ensures
            final(self)@ == old(self)@.ret_if(true).with_ime(true),
    {
        self.return_to_caller();
        self.ime = true;
    }

    /// `LD A, [BC]` (0x0A).
    pub fn ld_a_bcptr(&mut self)
        ensures
            final(self)@ == old(self)@.ld_a_from(old(self)@.bc()),
    {
        let bc = self.bc();
        let val = self.read_byte(bc);
        self.registers.a = val;
    }

    /// `ADD A, H` (0x84).
    pub fn add_a_h(&mut self)
        ensures
            final(self)@ == old(self)@.add_a(old(self).registers.h),
    {
        let h = self.registers.h;
        self.add_to_a(h);
    }
}

} // verus!
