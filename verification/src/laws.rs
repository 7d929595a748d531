//! Properties that hold across instructions and cycles.
use vstd::prelude::*;

use crate::bits::{add16, flags, high_byte, lemma_flags_decode, low_byte};
use crate::cpu::{CpuView, Reg8};

verus! {

impl CpuView {
    /// An address that reads and writes as plain memory: outside the mapped
    /// boot ROM and none of the registers with special behaviour.
    pub open spec fn is_plain(self, addr: u16) -> bool {
        &&& !(self.boot_rom_active && addr < 0x0100)
        &&& addr != 0xFF02
        &&& addr != 0xFF04
        &&& addr != 0xFF41
        &&& addr != 0xFF44
        &&& addr != 0xFF46
        &&& addr != 0xFF50
    }

    /// The timer counters are within their periods: 256 cycles for the
    /// divider, 456 cycles per line, 154 lines.
    pub open spec fn timers_wf(self) -> bool {
        &&& self.div_counter < 256
        &&& self.ly_divider < 456
        &&& self.ly < 154
    }
}

/// A byte written to a plain address reads back, and the write changes what
/// no other address reads.
pub proof fn lemma_read_after_write(s: CpuView, addr: u16, value: u8, other: u16)
    requires
        s.memory.len() == 0x10000,
        s.is_plain(addr),
    ensures
        s.write(addr, value).read(addr) == value,
        other != addr ==> s.write(addr, value).read(other) == s.read(other),
{
}

/// Pushing a register pair and popping it back restores the registers and
/// the stack pointer, when both stack slots are plain memory.
pub proof fn lemma_push_pop(s: CpuView, hi: Reg8, lo: Reg8)
    requires
        s.memory.len() == 0x10000,
        s.is_plain(add16(s.sp, -1)),
        s.is_plain(add16(s.sp, -2)),
        !(hi is F),
        !(lo is F),
        !(hi == lo),
    ensures
        s.push_rr(hi, lo).pop_rr(hi, lo).registers == s.registers,
        s.push_rr(hi, lo).pop_rr(hi, lo).sp == s.sp,
{
    let t = s.push_rr(hi, lo);
    lemma_read_after_write(s.write(add16(s.sp, -1), s.reg(hi)), add16(s.sp, -2), s.reg(lo), add16(s.sp, -1));
    assert(add16(t.sp, 1) == add16(s.sp, -1));
    assert(t.read(t.sp) == s.reg(lo));
    assert(t.read(add16(t.sp, 1)) == s.reg(hi));
}

/// `PUSH AF` then `POP AF` restores A and SP, and F with its low nibble cleared.
pub proof fn lemma_push_pop_af(s: CpuView)
    requires
        s.memory.len() == 0x10000,
        s.is_plain(add16(s.sp, -1)),
        s.is_plain(add16(s.sp, -2)),
    ensures
        s.push_rr(Reg8::A, Reg8::F).pop_af().registers.a == s.registers.a,
        s.push_rr(Reg8::A, Reg8::F).pop_af().registers.f == s.registers.f & 0xF0,
        s.push_rr(Reg8::A, Reg8::F).pop_af().sp == s.sp,
{
    let t = s.push_rr(Reg8::A, Reg8::F);
    lemma_read_after_write(s.write(add16(s.sp, -1), s.registers.a), add16(s.sp, -2), s.registers.f, add16(s.sp, -1));
    assert(add16(t.sp, 1) == add16(s.sp, -1));
}

/// `CALL a16` followed by `RET` comes back to the instruction after the call
/// with the stack pointer and registers restored, when both stack slots are
/// plain memory.
pub proof fn lemma_call_ret(s: CpuView)
    requires
        s.memory.len() == 0x10000,
        s.is_plain(add16(s.sp, -1)),
        s.is_plain(add16(s.sp, -2)),
    ensures
        s.call_a16().ret_if(true).pc == add16(s.pc, 2),
        s.call_a16().ret_if(true).sp == s.sp,
        s.call_a16().ret_if(true).registers == s.registers,
{
    let s1 = s.advance(2);
    let t = s.call_a16();
    lemma_read_after_write(s1.write(add16(s.sp, -1), high_byte(s1.pc)), add16(s.sp, -2), low_byte(s1.pc), add16(s.sp, -1));
    assert(add16(t.sp, 1) == add16(s.sp, -1));
    assert(t.read(t.sp) == low_byte(s1.pc));
    assert(t.read(add16(t.sp, 1)) == high_byte(s1.pc));
    crate::bits::lemma_bytes_word(s1.pc);
}

/// `INC r` followed by `DEC r` gives the register its value back.
pub proof fn lemma_inc_dec(s: CpuView, r: Reg8)
    requires
        !(r is F),
    ensures
        s.inc_r(r).dec_r(r).reg(r) == s.reg(r),
        s.dec_r(r).inc_r(r).reg(r) == s.reg(r),
{
}

/// A memory write leaves the registers and timers alone, and can unmap the
/// boot ROM but never map it back.
pub proof fn lemma_write_frame(s: CpuView, addr: u16, value: u8)
    ensures
        s.write(addr, value).registers == s.registers,
        s.write(addr, value).pc == s.pc,
        s.write(addr, value).sp == s.sp,
        s.write(addr, value).ime == s.ime,
        s.write(addr, value).ly == s.ly,
        s.write(addr, value).ly_divider == s.ly_divider,
        s.write(addr, value).div_counter == s.div_counter,
        s.write(addr, value).boot_rom == s.boot_rom,
        s.write(addr, value).boot_rom_active ==> s.boot_rom_active,
{
}

/// No instruction touches the timer counters, and none maps the boot ROM back.
pub proof fn lemma_step_keeps_timers(s: CpuView, op: u8, cb: bool)
    requires
        (if cb { s.step_cb(op) } else { s.step(op) }) is Some,
    ensures
        ({
            let t = (if cb { s.step_cb(op) } else { s.step(op) }).unwrap();
            &&& t.ly == s.ly
            &&& t.ly_divider == s.ly_divider
            &&& t.div_counter == s.div_counter
            &&& t.boot_rom_active ==> s.boot_rom_active
        }),
{
}

/// Every cycle keeps the timer counters within their periods; from such a
/// state the timers never overflow.
pub proof fn lemma_tick_keeps_timers_wf(s: CpuView)
    requires
        s.timers_wf(),
    ensures
        s.timers_ok(),
        s.tick() is Some ==> s.tick().unwrap().timers_wf(),
{
    let u = s.after_div().after_line().after_interrupt();
    let op = u.imm8();
    let v = u.advance(1);
    if op == 0xCB {
        if v.advance(1).step_cb(v.imm8()) is Some {
            lemma_step_keeps_timers(v.advance(1), v.imm8(), true);
        }
    } else {
        if v.step(op) is Some {
            lemma_step_keeps_timers(v, op, false);
        }
    }
}

/// Once the boot ROM is unmapped, no cycle maps it back.
pub proof fn lemma_boot_rom_stays_unmapped(s: CpuView)
    requires
        !s.boot_rom_active,
        s.tick() is Some,
    ensures
        !s.tick().unwrap().boot_rom_active,
{
    let u = s.after_div().after_line().after_interrupt();
    let op = u.imm8();
    let v = u.advance(1);
    if op == 0xCB {
        lemma_step_keeps_timers(v.advance(1), v.imm8(), true);
    } else {
        lemma_step_keeps_timers(v, op, false);
    }
}

/// The LCD status register reads back its stored upper six bits, with the
/// mode of the current line in the two low bits: 1 during V-Blank (lines
/// 144 and up), else 2, 3 or 0 by the position in the line.
pub proof fn lemma_stat_read(s: CpuView)
    requires
        s.memory.len() == 0x10000,
    ensures
        s.read(0xFF41) & 0xFC == s.memory[0xFF41] & 0xFC,
        s.read(0xFF41) & 0x03 == if s.ly >= 144 {
            1u8
        } else if s.ly_divider < 80 {
            2u8
        } else if s.ly_divider < 252 {
            3u8
        } else {
            0u8
        },
{
    lemma_stat_bits(s.memory[0xFF41]);
}

proof fn lemma_stat_bits(m: u8)
    by (bit_vector)
    ensures
        ((m & 0xFC) | 0x01) & 0xFC == m & 0xFC,
        ((m & 0xFC) | 0x02) & 0xFC == m & 0xFC,
        ((m & 0xFC) | 0x03) & 0xFC == m & 0xFC,
        (m & 0xFC) & 0xFC == m & 0xFC,
        ((m & 0xFC) | 0x01) & 0x03 == 1,
        ((m & 0xFC) | 0x02) & 0x03 == 2,
        ((m & 0xFC) | 0x03) & 0x03 == 3,
        (m & 0xFC) & 0x03 == 0,
{
}

/// `CPL` twice gives A back; `SWAP A` twice gives A back.
pub proof fn lemma_cpl_swap_involutions(s: CpuView)
    ensures
        s.cpl().cpl().registers.a == s.registers.a,
        s.swap_a().swap_a().registers.a == s.registers.a,
{
    lemma_involution_bits(s.registers.a);
}

proof fn lemma_involution_bits(v: u8)
    by (bit_vector)
    ensures
        !(!v) == v,
        (((v >> 4u8) | (v << 4u8)) >> 4u8) | (((v >> 4u8) | (v << 4u8)) << 4u8) == v,
{
}

/// Servicing the V-Blank interrupt and returning with `RETI` resumes at the
/// interrupted instruction with the stack pointer restored and interrupts
/// enabled again, when both stack slots are plain memory.
pub proof fn lemma_interrupt_reti(s: CpuView)
    requires
        s.memory.len() == 0x10000,
        s.ime,
        (s.memory[0xFFFF] & s.memory[0xFF0F]) & 0x01 != 0,
        s.is_plain(add16(s.sp, -1)),
        s.is_plain(add16(s.sp, -2)),
    ensures
        s.after_interrupt().pc == 0x0040,
        !s.after_interrupt().ime,
        s.after_interrupt().ret_if(true).with_ime(true).pc == s.pc,
        s.after_interrupt().ret_if(true).with_ime(true).sp == s.sp,
        s.after_interrupt().ret_if(true).with_ime(true).ime,
{
    let s0 = s.poke(0xFF0F, s.memory[0xFF0F] & !0x01u8).with_ime(false);
    let t = s.after_interrupt();
    lemma_read_after_write(
        s0.write(add16(s.sp, -1), high_byte(s.pc)),
        add16(s.sp, -2),
        low_byte(s.pc),
        add16(s.sp, -1),
    );
    lemma_read_after_write(s0, add16(s.sp, -1), high_byte(s.pc), add16(s.sp, -1));
    assert(add16(t.sp, 1) == add16(s.sp, -1));
    crate::bits::lemma_bytes_word(s.pc);
}

proof fn lemma_low_nibble_clear_facts()
    ensures
        forall|z: bool, n: bool, h: bool, c: bool| #[trigger] flags(z, n, h, c) & 0x0F == 0,
        forall|x: u8| #[trigger] (x & 0xF0) & 0x0F == 0,
{
    assert forall|z: bool, n: bool, h: bool, c: bool| #[trigger] flags(z, n, h, c) & 0x0F == 0 by {
        lemma_flags_decode(z, n, h, c);
        lemma_nibble_of_multiple_of_16(flags(z, n, h, c));
    }
    assert forall|x: u8| #[trigger] (x & 0xF0) & 0x0F == 0 by {
        lemma_masked_high_nibble(x);
    }
}

proof fn lemma_nibble_of_multiple_of_16(f: u8)
    by (bit_vector)
    ensures
        f % 16 == 0 ==> f & 0x0F == 0,
{
}

proof fn lemma_masked_high_nibble(x: u8)
    by (bit_vector)
    ensures
        (x & 0xF0) & 0x0F == 0,
{
}

/// The low nibble of the flag register stays clear: every instruction
/// either leaves F alone, composes it from the four flags, or (`POP AF`)
/// masks the popped byte.
pub proof fn lemma_step_keeps_flag_nibble_clear(s: CpuView, op: u8, cb: bool)
    requires
        s.registers.f & 0x0F == 0,
        (if cb { s.step_cb(op) } else { s.step(op) }) is Some,
    ensures
        (if cb { s.step_cb(op) } else { s.step(op) }).unwrap().registers.f & 0x0F == 0,
{
    lemma_low_nibble_clear_facts();
}

/// Every cycle keeps the low nibble of the flag register clear.
pub proof fn lemma_tick_keeps_flag_nibble_clear(s: CpuView)
    requires
        s.registers.f & 0x0F == 0,
        s.tick() is Some,
    ensures
        s.tick().unwrap().registers.f & 0x0F == 0,
{
    let u = s.after_div().after_line().after_interrupt();
    let op = u.imm8();
    let v = u.advance(1);
    if op == 0xCB {
        lemma_step_keeps_flag_nibble_clear(v.advance(1), v.imm8(), true);
    } else {
        lemma_step_keeps_flag_nibble_clear(v, op, false);
    }
}

} // verus!
