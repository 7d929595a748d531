//! What each instruction does to the machine state, as functions on the
//! model. The executable instructions are proved against these.
use vstd::prelude::*;

use crate::bits::{add16, add8, carry_flag, flags, high_byte, low_byte, signed8, zero_flag};
use crate::cpu::{CpuView, Reg8};

verus! {

impl CpuView {
    /// `LD r, n8`: the byte after the opcode loaded into `r`.
    pub open spec fn ld_r_n8(self, r: Reg8) -> CpuView {
        self.advance(1).set_reg(r, self.imm8())
    }

    /// `LD rr, n16`: the word after the opcode loaded into the pair `hi`:`lo`.
    pub open spec fn ld_rr_n16(self, hi: Reg8, lo: Reg8) -> CpuView {
        self.advance(2).set_pair(hi, lo, self.imm16())
    }

    /// `LD dst, src` between 8-bit registers.
    pub open spec fn ld_r_r(self, dst: Reg8, src: Reg8) -> CpuView {
        self.set_reg(dst, self.reg(src))
    }

    /// `LD A, [addr]`.
    pub open spec fn ld_a_from(self, addr: u16) -> CpuView {
        self.set_reg(Reg8::A, self.read(addr))
    }

    /// `LD [addr], A`.
    pub open spec fn ld_a_to(self, addr: u16) -> CpuView {
        self.write(addr, self.registers.a)
    }

    /// `INC r`: Z from the result, N cleared, H on a carry out of bit 3, C kept.
    pub open spec fn inc_r(self, r: Reg8) -> CpuView {
        let v = self.reg(r);
        let res = add8(v, 1);
        self.set_reg(r, res).set_reg(
            Reg8::F,
            flags(res == 0, false, v & 0x0F == 0x0F, carry_flag(self.registers.f)),
        )
    }

    /// `DEC r`: Z from the result, N set, H on a borrow from bit 4, C kept.
    pub open spec fn dec_r(self, r: Reg8) -> CpuView {
        let v = self.reg(r);
        let res = add8(v, -1);
        self.set_reg(r, res).set_reg(
            Reg8::F,
            flags(res == 0, true, v & 0x0F == 0, carry_flag(self.registers.f)),
        )
    }

    /// `ADD A, v`.
    pub open spec fn add_a(self, v: u8) -> CpuView {
        let a = self.registers.a;
        let res = add8(a, v as int);
        self.set_reg(Reg8::A, res).set_reg(
            Reg8::F,
            flags(res == 0, false, (a & 0x0F) + (v & 0x0F) > 0x0F, a + v > 0xFF),
        )
    }

    /// `SUB A, v`.
    pub open spec fn sub_a(self, v: u8) -> CpuView {
        let a = self.registers.a;
        let res = add8(a, -v);
        self.set_reg(Reg8::A, res).set_reg(
            Reg8::F,
            flags(res == 0, true, (a & 0x0F) < (v & 0x0F), a < v),
        )
    }

    /// `CP A, v`: the flags of `SUB A, v`, with A kept.
    pub open spec fn cp_a(self, v: u8) -> CpuView {
        let a = self.registers.a;
        self.set_reg(Reg8::F, flags(a == v, true, (a & 0x0F) < (v & 0x0F), a < v))
    }

    /// `AND A, v`: Z from the result, H set, N and C cleared.
    pub open spec fn and_a(self, v: u8) -> CpuView {
        let res = self.registers.a & v;
        self.set_reg(Reg8::A, res).set_reg(Reg8::F, flags(res == 0, false, true, false))
    }

    /// `OR A, v`: Z from the result, other flags cleared.
    pub open spec fn or_a(self, v: u8) -> CpuView {
        let res = self.registers.a | v;
        self.set_reg(Reg8::A, res).set_reg(Reg8::F, flags(res == 0, false, false, false))
    }

    /// `XOR A, v`: Z from the result, other flags cleared.
    pub open spec fn xor_a_with(self, v: u8) -> CpuView {
        let res = self.registers.a ^ v;
        self.set_reg(Reg8::A, res).set_reg(Reg8::F, flags(res == 0, false, false, false))
    }

    /// `BIT n, v` for the bit selected by `mask`: Z when the bit is clear, H set, C kept.
    pub open spec fn bit_test(self, v: u8, mask: u8) -> CpuView {
        self.set_reg(Reg8::F, flags(v & mask == 0, false, true, carry_flag(self.registers.f)))
    }

    /// `RL r`: rotate left through the carry flag.
    pub open spec fn rl_r(self, r: Reg8) -> CpuView {
        let v = self.reg(r);
        let res = (v << 1u8) | (if carry_flag(self.registers.f) { 1u8 } else { 0u8 });
        self.set_reg(r, res).set_reg(Reg8::F, flags(res == 0, false, false, v & 0x80 != 0))
    }

    /// `RLA`: as `RL A`, but Z is always cleared.
    pub open spec fn rla(self) -> CpuView {
        let v = self.registers.a;
        let res = (v << 1u8) | (if carry_flag(self.registers.f) { 1u8 } else { 0u8 });
        self.set_reg(Reg8::A, res).set_reg(Reg8::F, flags(false, false, false, v & 0x80 != 0))
    }

    /// `RRCA`: rotate A right, bit 0 into bit 7 and into the carry flag.
    pub open spec fn rrca(self) -> CpuView {
        let v = self.registers.a;
        let res = (v >> 1u8) | ((v & 0x01) << 7u8);
        self.set_reg(Reg8::A, res).set_reg(Reg8::F, flags(false, false, false, v & 0x01 != 0))
    }

    /// `SWAP A`: exchange the two nibbles of A.
    pub open spec fn swap_a(self) -> CpuView {
        let v = self.registers.a;
        let res = (v >> 4u8) | (v << 4u8);
        self.set_reg(Reg8::A, res).set_reg(Reg8::F, flags(res == 0, false, false, false))
    }

    /// `CPL`: complement A, set N and H, keep Z and C.
    pub open spec fn cpl(self) -> CpuView {
        let f = self.registers.f;
        self.set_reg(Reg8::A, !self.registers.a).set_reg(
            Reg8::F,
            flags(zero_flag(f), true, true, carry_flag(f)),
        )
    }

    /// `ADD HL, DE`: Z kept, N cleared, H on a carry out of bit 11, C out of bit 15.
    pub open spec fn add_hl_de(self) -> CpuView {
        let hl = self.hl();
        let de = self.de();
        self.set_pair(Reg8::H, Reg8::L, add16(hl, de as int)).set_reg(
            Reg8::F,
            flags(
                zero_flag(self.registers.f),
                false,
                (hl & 0x0FFF) + (de & 0x0FFF) > 0x0FFF,
                hl + de > 0xFFFF,
            ),
        )
    }

    /// `ADD SP, e8`: SP moved by the signed operand; H and C from the unsigned
    /// addition of the operand to the low byte of SP.
    pub open spec fn add_sp_e8(self) -> CpuView {
        let e8 = self.imm8();
        let sp = self.sp;
        self.advance(1).with_sp(add16(sp, signed8(e8))).set_reg(
            Reg8::F,
            flags(false, false, (sp & 0x000F) + (e8 & 0x0F) > 0x000F, (sp & 0x00FF) + e8 > 0x00FF),
        )
    }

    /// `JR cc, e8`: past the operand, then moved by it when `cond` holds.
    pub open spec fn jr_if(self, cond: bool) -> CpuView {
        let s1 = self.advance(1);
        if cond {
            s1.with_pc(add16(s1.pc, signed8(self.imm8())))
        } else {
            s1
        }
    }

    /// `JP cc, a16`: past the operand, then at it when `cond` holds.
    pub open spec fn jp_if(self, cond: bool) -> CpuView {
        let s1 = self.advance(2);
        if cond {
            s1.with_pc(self.imm16())
        } else {
            s1
        }
    }

    /// `CALL a16`: the address after the operand pushed, then a jump to it.
    pub open spec fn call_a16(self) -> CpuView {
        let s1 = self.advance(2);
        s1.push(high_byte(s1.pc), low_byte(s1.pc)).with_pc(self.imm16())
    }

    /// `RST vec`: the program counter pushed, then a jump to `target`.
    pub open spec fn rst(self, target: u16) -> CpuView {
        self.push(high_byte(self.pc), low_byte(self.pc)).with_pc(target)
    }

    /// `RET cc`: when `cond` holds, the word on the stack popped into PC.
    pub open spec fn ret_if(self, cond: bool) -> CpuView {
        if cond {
            self.with_pc(self.top()).pop()
        } else {
            self
        }
    }

    /// `PUSH rr`.
    pub open spec fn push_rr(self, hi: Reg8, lo: Reg8) -> CpuView {
        self.push(self.reg(hi), self.reg(lo))
    }

    /// `POP rr` for BC, DE and HL.
    pub open spec fn pop_rr(self, hi: Reg8, lo: Reg8) -> CpuView {
        self.set_reg(lo, self.read(self.sp)).set_reg(hi, self.read(add16(self.sp, 1))).pop()
    }

    /// `POP AF`: the low nibble of F stays clear.
    pub open spec fn pop_af(self) -> CpuView {
        self.set_reg(Reg8::F, self.read(self.sp) & 0xF0).set_reg(
            Reg8::A,
            self.read(add16(self.sp, 1)),
        ).pop()
    }

    /// `INC [HL]`.
    pub open spec fn inc_hlptr(self) -> CpuView {
        let v = self.read(self.hl());
        let res = add8(v, 1);
        self.set_reg(
            Reg8::F,
            flags(res == 0, false, v & 0x0F == 0x0F, carry_flag(self.registers.f)),
        ).write(self.hl(), res)
    }
}

} // verus!
