//! The regular layout of the opcode map: register operands are encoded in
//! three-bit fields (B, C, D, E, H, L, [HL], A), ALU operations and
//! conditions in two- or three-bit fields. Each law holds for every opcode
//! of its family that `execute` implements.
use vstd::prelude::*;

use crate::bits::{carry_flag, zero_flag};
use crate::cpu::{CpuView, Reg8};

verus! {

/// The register named by a three-bit operand field (6, which names the
/// byte at HL, has no register and maps to A like 7).
pub open spec fn reg_field(z: u8) -> Reg8 {
    if z == 0 {
        Reg8::B
    } else if z == 1 {
        Reg8::C
    } else if z == 2 {
        Reg8::D
    } else if z == 3 {
        Reg8::E
    } else if z == 4 {
        Reg8::H
    } else if z == 5 {
        Reg8::L
    } else {
        Reg8::A
    }
}

/// The 8-bit operand named by a three-bit field: a register, or for 6 the
/// byte at HL.
pub open spec fn operand_field(s: CpuView, z: u8) -> u8 {
    if z == 6 {
        s.read(s.hl())
    } else {
        s.reg(reg_field(z))
    }
}

/// The condition named by a two-bit field: NZ, Z, NC, C.
pub open spec fn cond_field(s: CpuView, cc: u8) -> bool {
    if cc == 0 {
        !zero_flag(s.registers.f)
    } else if cc == 1 {
        zero_flag(s.registers.f)
    } else if cc == 2 {
        !carry_flag(s.registers.f)
    } else {
        carry_flag(s.registers.f)
    }
}

/// The ALU operation named by the three-bit field of opcodes 0x80..0xBF:
/// ADD, ADC, SUB, SBC, AND, XOR, OR, CP (ADC and SBC have no model here).
pub open spec fn alu_field(s: CpuView, k: u8, v: u8) -> Option<CpuView> {
    if k == 0 {
        Some(s.add_a(v))
    } else if k == 2 {
        Some(s.sub_a(v))
    } else if k == 4 {
        Some(s.and_a(v))
    } else if k == 5 {
        Some(s.xor_a_with(v))
    } else if k == 6 {
        Some(s.or_a(v))
    } else if k == 7 {
        Some(s.cp_a(v))
    } else {
        None
    }
}

/// `INC r` is 0x04 + 8r, `DEC r` is 0x05 + 8r, `LD r, n8` is 0x06 + 8r.
pub proof fn lemma_decode_inc_dec_ld(s: CpuView, y: u8)
    requires
        y < 8,
        y != 6,
    ensures
        s.step((0x04 + 8 * y) as u8) is Some ==> s.step((0x04 + 8 * y) as u8) == Some(
            s.inc_r(reg_field(y)),
        ),
        s.step((0x05 + 8 * y) as u8) is Some ==> s.step((0x05 + 8 * y) as u8) == Some(
            s.dec_r(reg_field(y)),
        ),
        s.step((0x06 + 8 * y) as u8) is Some ==> s.step((0x06 + 8 * y) as u8) == Some(
            s.ld_r_n8(reg_field(y)),
        ),
{
    if y == 0 {
    } else if y == 1 {
    } else if y == 2 {
    } else if y == 3 {
    } else if y == 4 {
    } else if y == 5 {
    } else {
    }
}

/// `LD dst, src` is 0x40 + 8 dst + src: a register or the byte at HL is
/// copied into a register or into the byte at HL.
pub proof fn lemma_decode_ld(s: CpuView, y: u8, z: u8)
    requires
        y < 8,
        z < 8,
        !(y == 6 && z == 6),
    ensures
        s.step((0x40 + 8 * y + z) as u8) is Some ==> s.step((0x40 + 8 * y + z) as u8) == Some(
            if y == 6 {
                s.write(s.hl(), operand_field(s, z))
            } else {
                s.set_reg(reg_field(y), operand_field(s, z))
            },
        ),
{
    assert(y == 0 || y == 1 || y == 2 || y == 3 || y == 4 || y == 5 || y == 6 || y == 7);
    assert(z == 0 || z == 1 || z == 2 || z == 3 || z == 4 || z == 5 || z == 6 || z == 7);
}

/// The ALU operations on A are 0x80 + 8 op + src.
pub proof fn lemma_decode_alu(s: CpuView, k: u8, z: u8)
    requires
        k < 8,
        z < 8,
    ensures
        s.step((0x80 + 8 * k + z) as u8) is Some ==> s.step((0x80 + 8 * k + z) as u8)
            == alu_field(s, k, operand_field(s, z)),
{
    assert(k == 0 || k == 1 || k == 2 || k == 3 || k == 4 || k == 5 || k == 6 || k == 7);
    assert(z == 0 || z == 1 || z == 2 || z == 3 || z == 4 || z == 5 || z == 6 || z == 7);
}

/// `POP` is 0xC1 + 16 p and `PUSH` is 0xC5 + 16 p for the pairs BC, DE, HL, AF.
pub proof fn lemma_decode_stack(s: CpuView, p: u8)
    requires
        p < 4,
    ensures
        s.step((0xC5 + 16 * p) as u8) is Some,
        s.step((0xC1 + 16 * p) as u8) is Some,
        s.step((0xC5 + 16 * p) as u8) == Some(
            if p == 0 {
                s.push_rr(Reg8::B, Reg8::C)
            } else if p == 1 {
                s.push_rr(Reg8::D, Reg8::E)
            } else if p == 2 {
                s.push_rr(Reg8::H, Reg8::L)
            } else {
                s.push_rr(Reg8::A, Reg8::F)
            },
        ),
        s.step((0xC1 + 16 * p) as u8) == Some(
            if p == 0 {
                s.pop_rr(Reg8::B, Reg8::C)
            } else if p == 1 {
                s.pop_rr(Reg8::D, Reg8::E)
            } else if p == 2 {
                s.pop_rr(Reg8::H, Reg8::L)
            } else {
                s.pop_af()
            },
        ),
{
    assert(p == 0 || p == 1 || p == 2 || p == 3);
}

/// `JR cc, e8` is 0x20 + 8 cc, `RET cc` is 0xC0 + 8 cc, `JP cc, a16` is
/// 0xC2 + 8 cc; the unconditional forms are 0x18, 0xC9 and 0xC3.
pub proof fn lemma_decode_control(s: CpuView, cc: u8)
    requires
        cc < 4,
    ensures
        s.step((0x20 + 8 * cc) as u8) is Some ==> s.step((0x20 + 8 * cc) as u8) == Some(
            s.jr_if(cond_field(s, cc)),
        ),
        s.step((0xC0 + 8 * cc) as u8) is Some ==> s.step((0xC0 + 8 * cc) as u8) == Some(
            s.ret_if(cond_field(s, cc)),
        ),
        s.step((0xC2 + 8 * cc) as u8) is Some ==> s.step((0xC2 + 8 * cc) as u8) == Some(
            s.jp_if(cond_field(s, cc)),
        ),
        s.step(0x18) == Some(s.jr_if(true)),
        s.step(0xC9) == Some(s.ret_if(true)),
        s.step(0xC3) == Some(s.jp_if(true)),
{
    assert(cc == 0 || cc == 1 || cc == 2 || cc == 3);
}

/// After the 0xCB prefix: `RL r` is 0x10 + r, `SWAP r` is 0x30 + r,
/// `BIT b, r` is 0x40 + 8b + r, and `RES b, r` is 0x80 + 8b + r.
pub proof fn lemma_decode_cb(s: CpuView, b: u8, z: u8)
    requires
        b < 8,
        z < 8,
        z != 6,
    ensures
        s.step_cb((0x10 + z) as u8) is Some ==> s.step_cb((0x10 + z) as u8) == Some(
            s.rl_r(reg_field(z)),
        ),
        s.step_cb((0x30 + z) as u8) is Some ==> z == 7 && s.step_cb((0x30 + z) as u8) == Some(
            s.swap_a(),
        ),
        s.step_cb((0x40 + 8 * b + z) as u8) is Some ==> s.step_cb((0x40 + 8 * b + z) as u8)
            == Some(s.bit_test(s.reg(reg_field(z)), bit_mask(b))),
        s.step_cb((0x80 + 8 * b + z) as u8) is Some ==> s.step_cb((0x80 + 8 * b + z) as u8)
            == Some(
            s.set_reg(reg_field(z), s.reg(reg_field(z)) & ((0xFF - bit_mask(b)) as u8)),
        ),
{
    assert(b == 0 || b == 1 || b == 2 || b == 3 || b == 4 || b == 5 || b == 6 || b == 7);
    assert(z == 0 || z == 1 || z == 2 || z == 3 || z == 4 || z == 5 || z == 7);
}

/// The byte with only bit `b` set.
pub open spec fn bit_mask(b: u8) -> u8 {
    if b == 0 {
        0x01
    } else if b == 1 {
        0x02
    } else if b == 2 {
        0x04
    } else if b == 3 {
        0x08
    } else if b == 4 {
        0x10
    } else if b == 5 {
        0x20
    } else if b == 6 {
        0x40
    } else {
        0x80
    }
}

/// The high register of the pair named by a two-bit field: B, D, H.
pub open spec fn pair_hi(p: u8) -> Reg8 {
    if p == 0 {
        Reg8::B
    } else if p == 1 {
        Reg8::D
    } else {
        Reg8::H
    }
}

/// The low register of the pair named by a two-bit field: C, E, L.
pub open spec fn pair_lo(p: u8) -> Reg8 {
    if p == 0 {
        Reg8::C
    } else if p == 1 {
        Reg8::E
    } else {
        Reg8::L
    }
}

/// The 16-bit value of the pair BC, DE or HL.
pub open spec fn pair_value(s: CpuView, p: u8) -> u16 {
    (s.reg(pair_hi(p)) as int * 256 + s.reg(pair_lo(p)) as int) as u16
}

/// `LD rr, n16` is 0x01 + 16p, `INC rr` is 0x03 + 16p, `DEC rr` is 0x0B + 16p,
/// for BC, DE, HL (and SP, p = 3, for the load).
pub proof fn lemma_decode_pair_ops(s: CpuView, p: u8)
    requires
        p < 4,
    ensures
        s.step((0x01 + 16 * p) as u8) is Some ==> s.step((0x01 + 16 * p) as u8) == Some(
            if p == 3 {
                s.advance(2).with_sp(s.imm16())
            } else {
                s.advance(2).set_pair(pair_hi(p), pair_lo(p), s.imm16())
            },
        ),
        p < 3 && s.step((0x03 + 16 * p) as u8) is Some ==> s.step((0x03 + 16 * p) as u8) == Some(
            s.set_pair(pair_hi(p), pair_lo(p), ((pair_value(s, p) as int + 1) % 0x10000) as u16),
        ),
        p < 3 && s.step((0x0B + 16 * p) as u8) is Some ==> s.step((0x0B + 16 * p) as u8) == Some(
            s.set_pair(
                pair_hi(p),
                pair_lo(p),
                ((pair_value(s, p) as int + 0xFFFF) % 0x10000) as u16,
            ),
        ),
{
    assert(p == 0 || p == 1 || p == 2 || p == 3);
}

/// `LD [BC], A`, `LD [DE], A`, `LD [HL+], A`, `LD [HL-], A` are 0x02 + 16p;
/// the loads into A from the same places are 0x0A + 16p.
pub proof fn lemma_decode_indirect(s: CpuView, p: u8)
    requires
        p < 4,
    ensures
        ({
            let addr = if p == 3 { pair_value(s, 2) } else { pair_value(s, p) };
            let hl_after = if p == 2 {
                ((pair_value(s, 2) as int + 1) % 0x10000) as u16
            } else {
                ((pair_value(s, 2) as int + 0xFFFF) % 0x10000) as u16
            };
            &&& s.step((0x02 + 16 * p) as u8) is Some ==> s.step((0x02 + 16 * p) as u8) == Some(
                if p < 2 {
                    s.write(addr, s.registers.a)
                } else {
                    s.write(addr, s.registers.a).set_pair(Reg8::H, Reg8::L, hl_after)
                },
            )
            &&& s.step((0x0A + 16 * p) as u8) is Some ==> s.step((0x0A + 16 * p) as u8) == Some(
                if p < 2 {
                    s.set_reg(Reg8::A, s.read(addr))
                } else {
                    s.set_reg(Reg8::A, s.read(addr)).set_pair(Reg8::H, Reg8::L, hl_after)
                },
            )
        }),
{
    assert(p == 0 || p == 1 || p == 2 || p == 3);
}

/// The high-page and absolute accesses of A: `LDH [a8], A` (0xE0), `LDH A, [a8]`
/// (0xF0), `LDH [C], A` (0xE2), `LD [a16], A` (0xEA), `LD A, [a16]` (0xFA).
pub proof fn lemma_decode_absolute(s: CpuView)
    ensures
        ({
            let n = s.read(s.pc);
            let nn = (n as int + 256 * s.read(((s.pc as int + 1) % 0x10000) as u16) as int) as u16;
            let hp = (0xFF00 + n as int) as u16;
            &&& s.step(0xE0) == Some(s.advance(1).write(hp, s.registers.a))
            &&& s.step(0xF0) == Some(s.advance(1).set_reg(Reg8::A, s.read(hp)))
            &&& s.step(0xE2) == Some(s.write((0xFF00 + s.registers.c as int) as u16, s.registers.a))
            &&& s.step(0xEA) == Some(s.advance(2).write(nn, s.registers.a))
            &&& s.step(0xFA) == Some(s.advance(2).set_reg(Reg8::A, s.read(nn)))
        }),
{
}

/// The remaining opcodes, each with its one operation.
pub proof fn lemma_decode_single(s: CpuView)
    ensures
        ({
            let n = s.read(s.pc);
            let hl = pair_value(s, 2);
            &&& s.step(0x00) == Some(s)
            &&& s.step(0xCD) == Some(s.call_a16())
            &&& s.step(0xEF) == Some(s.rst(0x0028))
            &&& s.step(0xE9) == Some(s.with_pc(hl))
            &&& s.step(0xF3) == Some(s.with_ime(false))
            &&& s.step(0xFB) == Some(s.with_ime(true))
            &&& s.step(0xD9) == Some(s.ret_if(true).with_ime(true))
            &&& s.step(0x17) == Some(s.rla())
            &&& s.step(0x0F) == Some(s.rrca())
            &&& s.step(0x2F) == Some(s.cpl())
            &&& s.step(0x19) == Some(s.add_hl_de())
            &&& s.step(0xE8) == Some(s.add_sp_e8())
            &&& s.step(0xE6) == Some(s.advance(1).and_a(n))
            &&& s.step(0xFE) == Some(s.advance(1).cp_a(n))
            &&& s.step(0x36) == Some(s.advance(1).write(hl, n))
            &&& s.step(0x34) == Some(s.inc_hlptr())
        }),
{
}

/// An instruction is its opcode at PC, or after the prefix 0xCB the opcode
/// that follows it.
pub proof fn lemma_decode_prefix(s: CpuView)
    ensures
        ({
            let pc1 = ((s.pc as int + 1) % 0x10000) as u16;
            let pc2 = ((s.pc as int + 2) % 0x10000) as u16;
            &&& s.read(s.pc) == 0xCB ==> s.next_instruction() == s.with_pc(pc2).step_cb(s.read(pc1))
            &&& s.read(s.pc) != 0xCB ==> s.next_instruction() == s.with_pc(pc1).step(s.read(s.pc))
        }),
{
    assert(s.advance(1).advance(1) == s.with_pc(((s.pc as int + 2) % 0x10000) as u16));
}

} // verus!
