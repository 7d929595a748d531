//! What the operations mean, stated in plain arithmetic and bit terms over
//! the registers and memory, independently of how the model writes them.
use vstd::prelude::*;

use crate::bits::{
    carry_flag, half_carry_flag, lemma_flags_decode, subtract_flag, zero_flag,
};
use crate::cpu::{CpuView, Reg8};

verus! {

/// Bit `i` of the byte `x`.
pub open spec fn bit_of(x: u8, i: u8) -> bool {
    (x >> i) & 1 == 1
}

proof fn lemma_bitwise(a: u8, v: u8, i: u8)
    by (bit_vector)
    requires
        i < 8,
    ensures
        ((a & v) >> i) & 1u8 == 1u8 <==> (((a >> i) & 1u8 == 1u8) && ((v >> i) & 1u8 == 1u8)),
        ((a | v) >> i) & 1u8 == 1u8 <==> (((a >> i) & 1u8 == 1u8) || ((v >> i) & 1u8 == 1u8)),
        ((a ^ v) >> i) & 1u8 == 1u8 <==> (((a >> i) & 1u8 == 1u8) != ((v >> i) & 1u8 == 1u8)),
{
}

proof fn lemma_nibble_mask8(x: u8)
    by (bit_vector)
    ensures
        (x & 0x0F) as int == (x as int) % 16,
{
}

proof fn lemma_nibble_mask16(y: u16)
    by (bit_vector)
    ensures
        (y & 0x0FFF) as int == (y as int) % 4096,
{
}

/// Whether `r` names one of the seven data registers (not F).
pub open spec fn is_data_reg(r: Reg8) -> bool {
    !(r is F)
}

/// The data registers other than `r`, and PC, SP and memory, are unchanged.
pub open spec fn only_touches(s: CpuView, t: CpuView, r: Reg8) -> bool {
    &&& forall|q: Reg8| is_data_reg(q) && q != r ==> #[trigger] t.reg(q) == s.reg(q)
    &&& t.pc == s.pc
    &&& t.sp == s.sp
    &&& t.memory == s.memory
    &&& t.boot_rom_active == s.boot_rom_active
    &&& t.ime == s.ime
}

/// `INC r` adds one modulo 256 to `r` and to nothing else; Z when the result
/// is 0, N clear, H when the low nibble was 0xF, C unchanged.
pub proof fn lemma_inc_meaning(s: CpuView, r: Reg8)
    requires
        is_data_reg(r),
    ensures
        s.inc_r(r).reg(r) as int == (s.reg(r) as int + 1) % 256,
        only_touches(s, s.inc_r(r), r),
        zero_flag(s.inc_r(r).registers.f) == (s.inc_r(r).reg(r) == 0),
        !subtract_flag(s.inc_r(r).registers.f),
        half_carry_flag(s.inc_r(r).registers.f) == (s.reg(r) % 16 == 15),
        carry_flag(s.inc_r(r).registers.f) == carry_flag(s.registers.f),
{
    let v = s.reg(r);
    let res = ((v + 1) % 256) as u8;
    lemma_nibble_mask8(v);
    lemma_flags_decode(res == 0, false, v & 0x0F == 0x0F, carry_flag(s.registers.f));
}

/// `DEC r` subtracts one modulo 256 from `r` and from nothing else; Z when
/// the result is 0, N set, H when the low nibble was 0, C unchanged.
pub proof fn lemma_dec_meaning(s: CpuView, r: Reg8)
    requires
        is_data_reg(r),
    ensures
        s.dec_r(r).reg(r) as int == (s.reg(r) as int + 255) % 256,
        only_touches(s, s.dec_r(r), r),
        zero_flag(s.dec_r(r).registers.f) == (s.dec_r(r).reg(r) == 0),
        subtract_flag(s.dec_r(r).registers.f),
        half_carry_flag(s.dec_r(r).registers.f) == (s.reg(r) % 16 == 0),
        carry_flag(s.dec_r(r).registers.f) == carry_flag(s.registers.f),
{
    let v = s.reg(r);
    let res = ((v - 1) % 256) as u8;
    lemma_nibble_mask8(v);
    lemma_flags_decode(res == 0, true, v & 0x0F == 0, carry_flag(s.registers.f));
}

/// `ADD A, v`: A becomes `A + v` modulo 256; Z when it is 0, N clear, H on a
/// carry out of the low nibble, C on a carry out of the byte.
pub proof fn lemma_add_meaning(s: CpuView, v: u8)
    ensures
        s.add_a(v).registers.a as int == (s.registers.a + v) % 256,
        only_touches(s, s.add_a(v), Reg8::A),
        zero_flag(s.add_a(v).registers.f) == (s.add_a(v).registers.a == 0),
        !subtract_flag(s.add_a(v).registers.f),
        half_carry_flag(s.add_a(v).registers.f) == (s.registers.a % 16 + v % 16 > 15),
        carry_flag(s.add_a(v).registers.f) == (s.registers.a + v > 255),
{
    let a = s.registers.a;
    lemma_nibble_mask8(a);
    lemma_nibble_mask8(v);
    let res = ((a + v) % 256) as u8;
    lemma_flags_decode(res == 0, false, (a & 0x0F) + (v & 0x0F) > 0x0F, a + v > 0xFF);
}

/// `SUB A, v`: A becomes `A - v` modulo 256; Z when it is 0, N set, H on a
/// borrow from the high nibble, C on a borrow out of the byte.
pub proof fn lemma_sub_meaning(s: CpuView, v: u8)
    ensures
        s.sub_a(v).registers.a as int == (s.registers.a - v + 256) % 256,
        only_touches(s, s.sub_a(v), Reg8::A),
        zero_flag(s.sub_a(v).registers.f) == (s.registers.a == v),
        subtract_flag(s.sub_a(v).registers.f),
        half_carry_flag(s.sub_a(v).registers.f) == (s.registers.a % 16 < v % 16),
        carry_flag(s.sub_a(v).registers.f) == (s.registers.a < v),
{
    let a = s.registers.a;
    lemma_nibble_mask8(a);
    lemma_nibble_mask8(v);
    let res = ((a - v) % 256) as u8;
    lemma_flags_decode(res == 0, true, (a & 0x0F) < (v & 0x0F), a < v);
}

/// `CP A, v` sets the flags of `SUB A, v` and changes no register.
pub proof fn lemma_cp_meaning(s: CpuView, v: u8)
    ensures
        s.cp_a(v).registers.a == s.registers.a,
        only_touches(s, s.cp_a(v), Reg8::A),
        zero_flag(s.cp_a(v).registers.f) == (s.registers.a == v),
        subtract_flag(s.cp_a(v).registers.f),
        half_carry_flag(s.cp_a(v).registers.f) == (s.registers.a % 16 < v % 16),
        carry_flag(s.cp_a(v).registers.f) == (s.registers.a < v),
{
    let a = s.registers.a;
    lemma_nibble_mask8(a);
    lemma_nibble_mask8(v);
    lemma_flags_decode(a == v, true, (a & 0x0F) < (v & 0x0F), a < v);
}

/// `AND`, `OR` and `XOR` with `v` combine A and `v` bit by bit; Z when the
/// result is 0, H set by `AND` only, N and C clear.
pub proof fn lemma_logic_meaning(s: CpuView, v: u8)
    ensures
        forall|i: u8|
            i < 8 ==> bit_of(#[trigger] s.and_a(v).registers.a, i) == (bit_of(s.registers.a, i)
                && bit_of(v, i)),
        forall|i: u8|
            i < 8 ==> bit_of(#[trigger] s.or_a(v).registers.a, i) == (bit_of(s.registers.a, i)
                || bit_of(v, i)),
        forall|i: u8|
            i < 8 ==> bit_of(#[trigger] s.xor_a_with(v).registers.a, i) == (bit_of(
                s.registers.a,
                i,
            ) != bit_of(v, i)),
        only_touches(s, s.and_a(v), Reg8::A),
        only_touches(s, s.or_a(v), Reg8::A),
        only_touches(s, s.xor_a_with(v), Reg8::A),
        zero_flag(s.and_a(v).registers.f) == (s.and_a(v).registers.a == 0),
        zero_flag(s.or_a(v).registers.f) == (s.or_a(v).registers.a == 0),
        zero_flag(s.xor_a_with(v).registers.f) == (s.xor_a_with(v).registers.a == 0),
        s.and_a(v).registers.f == 0x20 || s.and_a(v).registers.f == 0xA0,
        s.or_a(v).registers.f == 0x00 || s.or_a(v).registers.f == 0x80,
        s.xor_a_with(v).registers.f == 0x00 || s.xor_a_with(v).registers.f == 0x80,
{
    let a = s.registers.a;
    assert forall|i: u8| i < 8 implies bit_of(#[trigger] s.and_a(v).registers.a, i) == (bit_of(
        a,
        i,
    ) && bit_of(v, i)) by {
        lemma_bitwise(a, v, i);
    }
    assert forall|i: u8| i < 8 implies bit_of(#[trigger] s.or_a(v).registers.a, i) == (bit_of(
        a,
        i,
    ) || bit_of(v, i)) by {
        lemma_bitwise(a, v, i);
    }
    assert forall|i: u8| i < 8 implies bit_of(#[trigger] s.xor_a_with(v).registers.a, i) == (
    bit_of(a, i) != bit_of(v, i)) by {
        lemma_bitwise(a, v, i);
    }
    lemma_flags_decode(a & v == 0, false, true, false);
    lemma_flags_decode(a | v == 0, false, false, false);
    lemma_flags_decode(a ^ v == 0, false, false, false);
}

/// `XOR A, v` applied twice gives A back, and `XOR A, A` clears A.
pub proof fn lemma_xor_undo(s: CpuView, v: u8)
    ensures
        s.xor_a_with(v).xor_a_with(v).registers.a == s.registers.a,
        s.xor_a_with(s.registers.a).registers.a == 0,
{
    lemma_xor_bits(s.registers.a, v);
}

proof fn lemma_xor_bits(a: u8, v: u8)
    by (bit_vector)
    ensures
        (a ^ v) ^ v == a,
        a ^ a == 0,
{
}

/// `ADD HL, DE` adds the full 16-bit pairs: `H * 256 + L` becomes
/// `(H * 256 + L + D * 256 + E)` modulo 0x10000; only H, L and F change;
/// Z is kept, N cleared, H on a carry out of bit 11, C out of bit 15.
pub proof fn lemma_add_hl_de_meaning(s: CpuView)
    ensures
        ({
            let t = s.add_hl_de();
            let hl = s.registers.h as int * 256 + s.registers.l as int;
            let de = s.registers.d as int * 256 + s.registers.e as int;
            &&& t.registers.h as int * 256 + t.registers.l as int == (hl + de) % 0x10000
            &&& t.registers.a == s.registers.a
            &&& t.registers.b == s.registers.b
            &&& t.registers.c == s.registers.c
            &&& t.registers.d == s.registers.d
            &&& t.registers.e == s.registers.e
            &&& t.pc == s.pc && t.sp == s.sp && t.memory == s.memory
            &&& zero_flag(t.registers.f) == zero_flag(s.registers.f)
            &&& !subtract_flag(t.registers.f)
            &&& half_carry_flag(t.registers.f) == (hl % 4096 + de % 4096 > 4095)
            &&& carry_flag(t.registers.f) == (hl + de > 0xFFFF)
        }),
{
    let hl = s.hl();
    let de = s.de();
    lemma_nibble_mask16(hl);
    lemma_nibble_mask16(de);
    let sum = ((hl + de) % 0x10000) as u16;
    crate::bits::lemma_bytes_word(sum);
    lemma_flags_decode(
        zero_flag(s.registers.f),
        false,
        (hl & 0x0FFF) + (de & 0x0FFF) > 0x0FFF,
        hl + de > 0xFFFF,
    );
}

/// While the boot ROM is mapped, every address below 0x100 reads the boot
/// ROM; once it is unmapped, those addresses read memory.
pub proof fn lemma_boot_rom_overlay(s: CpuView, addr: u16)
    requires
        addr < 0x0100,
    ensures
        s.boot_rom_active ==> s.read(addr) == s.boot_rom[addr as int],
        !s.boot_rom_active ==> s.read(addr) == s.memory[addr as int],
{
}

/// Outside the boot ROM and the LCD registers STAT and LY, a read returns
/// the byte stored in memory.
pub proof fn lemma_read_memory(s: CpuView, addr: u16)
    requires
        addr >= 0x0100,
        addr != 0xFF41,
        addr != 0xFF44,
    ensures
        s.read(addr) == s.memory[addr as int],
{
}

/// One cycle of the timers. The divider counts to 256 and then increments
/// DIV. While the boot ROM is unmapped, the line counter counts to 456 and
/// then moves LY to the next of the 154 lines; V-Blank (bit 0 of 0xFF0F) is
/// requested exactly when LY goes from 143 to 144, and 0xFF0F is otherwise
/// left alone, as is all other memory.
pub proof fn lemma_timers_meaning(s: CpuView)
    requires
        s.memory.len() == 0x10000,
        s.timers_wf(),
    ensures
        ({
            let t = s.after_div().after_line();
            let line_ends = !s.boot_rom_active && s.ly_divider == 455;
            &&& t.div_counter == (s.div_counter + 1) % 256
            &&& t.memory[0xFF04] == (if s.div_counter == 255 {
                ((s.memory[0xFF04] + 1) % 256) as u8
            } else {
                s.memory[0xFF04]
            })
            &&& t.ly_divider == (if s.boot_rom_active {
                s.ly_divider as int
            } else {
                (s.ly_divider + 1) % 456
            })
            &&& t.ly == (if line_ends {
                (s.ly + 1) % 154
            } else {
                s.ly as int
            })
            &&& t.memory[0xFF0F] == (if line_ends && s.ly == 143 {
                s.memory[0xFF0F] | 0x01
            } else {
                s.memory[0xFF0F]
            })
            &&& forall|k: int|
                0 <= k < 0x10000 && k != 0xFF04 && k != 0xFF0F ==> #[trigger] t.memory[k]
                    == s.memory[k]
            &&& t.registers == s.registers && t.pc == s.pc && t.sp == s.sp && t.ime == s.ime
        }),
{
}

proof fn lemma_rl_arith(v: u8, c: u8)
    by (bit_vector)
    requires
        c <= 1,
    ensures
        ((v << 1u8) | c) as int == ((v as int) * 2 + c as int) % 256,
{
}

proof fn lemma_rrca_arith(v: u8)
    by (bit_vector)
    ensures
        ((v >> 1u8) | ((v & 0x01) << 7u8)) as int == (v as int) / 2 + ((v as int) % 2) * 128,
{
}

proof fn lemma_swap_arith(v: u8)
    by (bit_vector)
    ensures
        ((v >> 4u8) | (v << 4u8)) as int == ((v as int) % 16) * 16 + (v as int) / 16,
{
}

proof fn lemma_not_arith(v: u8)
    by (bit_vector)
    ensures
        (!v) as int == 255 - (v as int),
{
}

proof fn lemma_end_bits(v: u8)
    by (bit_vector)
    ensures
        (v & 0x80 != 0) == (v as int >= 128),
        (v & 0x01 != 0) == ((v as int) % 2 == 1),
{
}

/// `RL r` shifts `r` left by one with the old carry entering bit 0 and bit 7
/// leaving into the carry; Z from the result, N and H clear.
pub proof fn lemma_rl_meaning(s: CpuView, r: Reg8)
    requires
        is_data_reg(r),
    ensures
        s.rl_r(r).reg(r) as int == (s.reg(r) as int * 2 + (if carry_flag(s.registers.f) {
            1int
        } else {
            0
        })) % 256,
        only_touches(s, s.rl_r(r), r),
        carry_flag(s.rl_r(r).registers.f) == (s.reg(r) >= 128),
        zero_flag(s.rl_r(r).registers.f) == (s.rl_r(r).reg(r) == 0),
        !subtract_flag(s.rl_r(r).registers.f),
        !half_carry_flag(s.rl_r(r).registers.f),
{
    let v = s.reg(r);
    let c: u8 = if carry_flag(s.registers.f) { 1 } else { 0 };
    lemma_rl_arith(v, c);
    lemma_end_bits(v);
    let res = (v << 1u8) | c;
    lemma_flags_decode(res == 0, false, false, v & 0x80 != 0);
}

/// `RLA` is `RL A` with Z always cleared.
pub proof fn lemma_rla_meaning(s: CpuView)
    ensures
        s.rla().registers.a as int == (s.registers.a as int * 2 + (if carry_flag(s.registers.f) {
            1int
        } else {
            0
        })) % 256,
        only_touches(s, s.rla(), Reg8::A),
        carry_flag(s.rla().registers.f) == (s.registers.a >= 128),
        s.rla().registers.f == 0x00 || s.rla().registers.f == 0x10,
{
    let v = s.registers.a;
    let c: u8 = if carry_flag(s.registers.f) { 1 } else { 0 };
    lemma_rl_arith(v, c);
    lemma_end_bits(v);
    lemma_flags_decode(false, false, false, v & 0x80 != 0);
}

/// `RRCA` rotates A right: bit 0 goes to bit 7 and to the carry; other flags clear.
pub proof fn lemma_rrca_meaning(s: CpuView)
    ensures
        s.rrca().registers.a as int == s.registers.a as int / 2 + (s.registers.a as int % 2)
            * 128,
        only_touches(s, s.rrca(), Reg8::A),
        carry_flag(s.rrca().registers.f) == (s.registers.a % 2 == 1),
        s.rrca().registers.f == 0x00 || s.rrca().registers.f == 0x10,
{
    let v = s.registers.a;
    lemma_rrca_arith(v);
    lemma_end_bits(v);
    lemma_flags_decode(false, false, false, v & 0x01 != 0);
}

/// `SWAP A` exchanges the nibbles of A; Z from the result, other flags clear.
pub proof fn lemma_swap_meaning(s: CpuView)
    ensures
        s.swap_a().registers.a as int == (s.registers.a as int % 16) * 16 + s.registers.a as int
            / 16,
        only_touches(s, s.swap_a(), Reg8::A),
        s.swap_a().registers.f == (if s.registers.a == 0 { 0x80u8 } else { 0x00u8 }),
{
    let v = s.registers.a;
    lemma_swap_arith(v);
    lemma_flags_decode((v >> 4u8) | (v << 4u8) == 0, false, false, false);
}

/// `CPL` turns A into `255 - A`; N and H set, Z and C kept.
pub proof fn lemma_cpl_meaning(s: CpuView)
    ensures
        s.cpl().registers.a as int == 255 - s.registers.a as int,
        only_touches(s, s.cpl(), Reg8::A),
        zero_flag(s.cpl().registers.f) == zero_flag(s.registers.f),
        carry_flag(s.cpl().registers.f) == carry_flag(s.registers.f),
        subtract_flag(s.cpl().registers.f),
        half_carry_flag(s.cpl().registers.f),
{
    lemma_not_arith(s.registers.a);
    lemma_flags_decode(zero_flag(s.registers.f), true, true, carry_flag(s.registers.f));
}

proof fn lemma_bit_select(v: u8)
    by (bit_vector)
    ensures
        (v & 0x01 == 0) == ((v as int) % 2 == 0),
        (v & 0x80 == 0) == ((v as int) / 128 % 2 == 0),
{
}

/// `BIT 0` and `BIT 7` set Z exactly when the tested bit of the operand is
/// clear; H set, N clear, C kept; no register but F changes.
pub proof fn lemma_bit_meaning(s: CpuView, v: u8)
    ensures
        zero_flag(s.bit_test(v, 0x01).registers.f) == (v as int % 2 == 0),
        zero_flag(s.bit_test(v, 0x80).registers.f) == (v as int / 128 % 2 == 0),
        half_carry_flag(s.bit_test(v, 0x01).registers.f),
        half_carry_flag(s.bit_test(v, 0x80).registers.f),
        !subtract_flag(s.bit_test(v, 0x80).registers.f),
        !subtract_flag(s.bit_test(v, 0x01).registers.f),
        carry_flag(s.bit_test(v, 0x01).registers.f) == carry_flag(s.registers.f),
        carry_flag(s.bit_test(v, 0x80).registers.f) == carry_flag(s.registers.f),
        only_touches(s, s.bit_test(v, 0x80), Reg8::F),
        only_touches(s, s.bit_test(v, 0x01), Reg8::F),
{
    lemma_bit_select(v);
    lemma_flags_decode(v & 0x01 == 0, false, true, carry_flag(s.registers.f));
    lemma_flags_decode(v & 0x80 == 0, false, true, carry_flag(s.registers.f));
}

/// A push stores the high byte just below SP and the low byte below it, moves
/// SP down by two (wrapping), and changes nothing else, when both slots are
/// plain memory.
pub proof fn lemma_push_meaning(s: CpuView, hi: u8, lo: u8)
    requires
        s.memory.len() == 0x10000,
        s.is_plain(((s.sp as int + 0xFFFF) % 0x10000) as u16),
        s.is_plain(((s.sp as int + 0xFFFE) % 0x10000) as u16),
    ensures
        ({
            let t = s.push(hi, lo);
            let a1 = (s.sp as int + 0xFFFF) % 0x10000;
            let a2 = (s.sp as int + 0xFFFE) % 0x10000;
            &&& t.sp as int == a2
            &&& t.memory[a1] == hi
            &&& t.memory[a2] == lo
            &&& forall|k: int| 0 <= k < 0x10000 && k != a1 && k != a2 ==> #[trigger] t.memory[k] == s.memory[k]
            &&& t.registers == s.registers && t.pc == s.pc && t.ime == s.ime
            &&& t.boot_rom_active == s.boot_rom_active
        }),
{
}

/// `RET` loads PC with the little-endian word at SP and moves SP up by two.
pub proof fn lemma_ret_meaning(s: CpuView)
    ensures
        s.ret_if(true).pc as int == s.read(s.sp) as int + 256 * s.read(
            ((s.sp as int + 1) % 0x10000) as u16,
        ) as int,
        s.ret_if(true).sp as int == (s.sp as int + 2) % 0x10000,
        s.ret_if(true).registers == s.registers,
        s.ret_if(true).memory == s.memory,
        s.ret_if(false) == s,
{
}

/// `CALL a16` (PC at its operand) jumps to the little-endian operand and
/// pushes the address just after it, high byte first.
pub proof fn lemma_call_meaning(s: CpuView)
    requires
        s.memory.len() == 0x10000,
        s.is_plain(((s.sp as int + 0xFFFF) % 0x10000) as u16),
        s.is_plain(((s.sp as int + 0xFFFE) % 0x10000) as u16),
    ensures
        ({
            let t = s.call_a16();
            let ret = (s.pc as int + 2) % 0x10000;
            &&& t.pc as int == s.read(s.pc) as int + 256 * s.read(
                ((s.pc as int + 1) % 0x10000) as u16,
            ) as int
            &&& t.sp as int == (s.sp as int + 0xFFFE) % 0x10000
            &&& t.memory[(s.sp as int + 0xFFFF) % 0x10000] as int == ret / 256
            &&& t.memory[(s.sp as int + 0xFFFE) % 0x10000] as int == ret % 256
            &&& t.registers == s.registers
        }),
{
    let s1 = s.advance(2);
    lemma_push_meaning(s1, crate::bits::high_byte(s1.pc), crate::bits::low_byte(s1.pc));
}

/// `JR e8` (PC at its operand) moves PC to just past the operand plus the
/// operand read as a signed byte, wrapping; when the condition fails, PC just
/// moves past the operand.
pub proof fn lemma_jr_meaning(s: CpuView, cond: bool)
    ensures
        s.jr_if(cond).pc as int == (if cond {
            let e = s.read(s.pc) as int;
            (s.pc as int + 1 + (if e < 128 { e } else { e - 256 }) + 0x20000) % 0x10000
        } else {
            (s.pc as int + 1) % 0x10000
        }),
        s.jr_if(cond).registers == s.registers,
        s.jr_if(cond).sp == s.sp,
        s.jr_if(cond).memory == s.memory,
{
}

/// `ADD SP, e8` (PC at its operand) adds the operand as a signed byte to SP,
/// wrapping; Z and N clear, H and C from adding the operand as an unsigned
/// byte to the low nibble and low byte of SP.
pub proof fn lemma_add_sp_meaning(s: CpuView)
    ensures
        ({
            let t = s.add_sp_e8();
            let e = s.read(s.pc) as int;
            &&& t.sp as int == (s.sp as int + (if e < 128 { e } else { e - 256 }) + 0x10000)
                % 0x10000
            &&& t.pc as int == (s.pc as int + 1) % 0x10000
            &&& !zero_flag(t.registers.f)
            &&& !subtract_flag(t.registers.f)
            &&& half_carry_flag(t.registers.f) == (s.sp as int % 16 + e % 16 > 15)
            &&& carry_flag(t.registers.f) == (s.sp as int % 256 + e > 255)
            &&& t.registers.a == s.registers.a && t.registers.h == s.registers.h
            &&& t.memory == s.memory
        }),
{
    let e8 = s.imm8();
    lemma_nibble_mask8(e8);
    lemma_low_masks16(s.sp);
    lemma_flags_decode(false, false, (s.sp & 0x000F) + (e8 & 0x0F) > 0x000F, (s.sp & 0x00FF) + e8 > 0x00FF);
}

proof fn lemma_low_masks16(y: u16)
    by (bit_vector)
    ensures
        (y & 0x000F) as int == (y as int) % 16,
        (y & 0x00FF) as int == (y as int) % 256,
{
}

/// Setting a register pair stores the high byte in `hi` and the low byte in
/// `lo`, and no other data register changes.
pub proof fn lemma_set_pair_meaning(s: CpuView, hi: Reg8, lo: Reg8, v: u16)
    requires
        is_data_reg(hi),
        is_data_reg(lo),
        hi != lo,
    ensures
        s.set_pair(hi, lo, v).reg(hi) as int * 256 + s.set_pair(hi, lo, v).reg(lo) as int
            == v as int,
        forall|q: Reg8|
            is_data_reg(q) && q != hi && q != lo ==> #[trigger] s.set_pair(hi, lo, v).reg(q)
                == s.reg(q),
        s.set_pair(hi, lo, v).registers.f == s.registers.f,
{
    crate::bits::lemma_bytes_word(v);
}

/// Writes to DIV clear it; writes to the serial control register drop bit 7;
/// writing 1 to 0xFF50 unmaps the boot ROM and stores nothing, other values
/// there change nothing.
pub proof fn lemma_special_writes(s: CpuView, v: u8)
    requires
        s.memory.len() == 0x10000,
    ensures
        s.write(0xFF04, v).memory[0xFF04] == 0,
        s.write(0xFF02, v).memory[0xFF02] as int == v as int % 128,
        !s.write(0xFF50, 1).boot_rom_active,
        s.write(0xFF50, 1).memory == s.memory,
        v != 1 ==> s.write(0xFF50, v) == s,
{
    lemma_serial_bits(v);
}

proof fn lemma_serial_bits(v: u8)
    by (bit_vector)
    ensures
        (if v & 0x80 != 0 { v & 0x7F } else { v }) as int == (v as int) % 128,
{
}

/// Writing `v` to 0xFF46 stores it there and copies the 160 bytes starting at
/// `v * 0x100` to 0xFE00..0xFEA0; source bytes in plain memory are copied as
/// stored; no other byte of memory changes.
pub proof fn lemma_dma_meaning(s: CpuView, v: u8)
    requires
        s.memory.len() == 0x10000,
    ensures
        ({
            let t = s.write(0xFF46, v);
            &&& t.memory.len() == 0x10000
            &&& t.memory[0xFF46] == v
            &&& forall|i: int|
                0 <= i < 160 && s.is_plain((v as int * 0x100 + i) as u16) ==> #[trigger] t.memory[0xFE00 + i]
                    == s.memory[v as int * 0x100 + i]
            &&& forall|k: int|
                0 <= k < 0x10000 && !(0xFE00 <= k < 0xFEA0) && k != 0xFF46 ==> #[trigger] t.memory[k]
                    == s.memory[k]
        }),
{
}

/// With interrupts enabled and V-Blank enabled and requested, dispatch
/// clears the request, disables interrupts, pushes PC (high byte first) and
/// jumps to 0x0040; otherwise nothing changes.
pub proof fn lemma_dispatch_meaning(s: CpuView)
    requires
        s.memory.len() == 0x10000,
        s.is_plain(((s.sp as int + 0xFFFF) % 0x10000) as u16),
        s.is_plain(((s.sp as int + 0xFFFE) % 0x10000) as u16),
    ensures
        ({
            let t = s.after_interrupt();
            let taken = s.ime && s.memory[0xFFFF] % 2 == 1 && s.memory[0xFF0F] % 2 == 1;
            &&& taken ==> {
                &&& t.pc == 0x0040
                &&& !t.ime
                &&& t.sp as int == (s.sp as int + 0xFFFE) % 0x10000
                &&& t.memory[(s.sp as int + 0xFFFF) % 0x10000] as int == s.pc as int / 256
                &&& t.memory[(s.sp as int + 0xFFFE) % 0x10000] as int == s.pc as int % 256
                &&& (t.memory[0xFF0F] % 2 == 0 || (s.sp as int + 0xFFFF) % 0x10000 == 0xFF0F
                    || (s.sp as int + 0xFFFE) % 0x10000 == 0xFF0F)
                &&& t.registers == s.registers
            }
            &&& !taken ==> t == s
        }),
{
    let ie = s.memory[0xFFFF];
    let fl = s.memory[0xFF0F];
    lemma_pending_bits(ie, fl);
    if s.ime && (ie & fl) & 0x01 != 0 {
        let s0 = s.poke(0xFF0F, fl & !0x01u8).with_ime(false);
        lemma_push_meaning(s0, crate::bits::high_byte(s.pc), crate::bits::low_byte(s.pc));
    }
}

proof fn lemma_pending_bits(ie: u8, fl: u8)
    by (bit_vector)
    ensures
        ((ie & fl) & 0x01 != 0) == (ie % 2 == 1 && fl % 2 == 1),
        (fl & !0x01u8) % 2 == 0,
{
}

/// `POP AF` stores the popped high byte in A and the popped low byte, with
/// its low nibble cleared, in F.
pub proof fn lemma_pop_af_meaning(s: CpuView)
    ensures
        s.pop_af().registers.a == s.read(((s.sp as int + 1) % 0x10000) as u16),
        s.pop_af().registers.f as int == s.read(s.sp) as int / 16 * 16,
        s.pop_af().sp as int == (s.sp as int + 2) % 0x10000,
{
    lemma_high_nibble(s.read(s.sp));
}

proof fn lemma_high_nibble(x: u8)
    by (bit_vector)
    ensures
        (x & 0xF0) as int == (x as int) / 16 * 16,
{
}

/// LY reads 0x90 while the boot ROM is mapped and the current line after.
pub proof fn lemma_ly_read(s: CpuView)
    ensures
        s.read(0xFF44) == (if s.boot_rom_active { 0x90u8 } else { s.ly }),
{
}

/// `LD r, n8` (PC at its operand) loads the operand into `r` and nothing else,
/// and moves PC past it.
pub proof fn lemma_ld_n8_meaning(s: CpuView, r: Reg8)
    requires
        is_data_reg(r),
    ensures
        s.ld_r_n8(r).reg(r) == s.read(s.pc),
        s.ld_r_n8(r).pc as int == (s.pc as int + 1) % 0x10000,
        forall|q: Reg8| is_data_reg(q) && q != r ==> #[trigger] s.ld_r_n8(r).reg(q) == s.reg(q),
        s.ld_r_n8(r).registers.f == s.registers.f,
        s.ld_r_n8(r).memory == s.memory,
{
}

/// `INC [HL]` adds one modulo 256 to the byte at HL (plain memory); the flags
/// are those of `INC r`, and no register but F changes.
pub proof fn lemma_inc_hlptr_meaning(s: CpuView)
    requires
        s.memory.len() == 0x10000,
        s.is_plain(s.hl()),
    ensures
        ({
            let t = s.inc_hlptr();
            let addr = s.registers.h as int * 256 + s.registers.l as int;
            let v = s.memory[addr];
            &&& t.memory[addr] as int == (v as int + 1) % 256
            &&& forall|k: int| 0 <= k < 0x10000 && k != addr ==> #[trigger] t.memory[k] == s.memory[k]
            &&& zero_flag(t.registers.f) == (t.memory[addr] == 0)
            &&& !subtract_flag(t.registers.f)
            &&& half_carry_flag(t.registers.f) == (v % 16 == 15)
            &&& carry_flag(t.registers.f) == carry_flag(s.registers.f)
            &&& only_touches(s, CpuView { memory: s.memory, ..t }, Reg8::F)
        }),
{
    let v = s.read(s.hl());
    lemma_nibble_mask8(v);
    lemma_flags_decode(((v + 1) % 256) as u8 == 0, false, v & 0x0F == 0x0F, carry_flag(s.registers.f));
}

} // verus!
