//! The machine state: registers, memory, boot ROM overlay, LCD line timer,
//! and the memory map that `read_byte` and `write_byte` implement.
use vstd::prelude::*;

use crate::bits::{add16, high_byte, low_byte, word};

verus! {

/// The eight 8-bit registers of the processor.
#[derive(Debug, Clone, Copy, PartialEq, Eq, Structural)]
pub struct Registers {
    pub a: u8,
    pub f: u8,
    pub b: u8,
    pub c: u8,
    pub d: u8,
    pub e: u8,
    pub h: u8,
    pub l: u8,
}

impl Registers {
    /// All registers cleared.
    pub fn new() -> (r: Self)
        ensures
            r == (Registers { a: 0, f: 0, b: 0, c: 0, d: 0, e: 0, h: 0, l: 0 }),
    {
        Registers { a: 0x00, f: 0x00, b: 0x00, c: 0x00, d: 0x00, e: 0x00, h: 0x00, l: 0x00 }
    }
}

/// Names of the 8-bit registers, as instruction operands.
pub enum Reg8 {
    A,
    F,
    B,
    C,
    D,
    E,
    H,
    L,
}

/// The whole processor: registers, 64 KiB address space, boot ROM and timers.
#[derive(Debug, PartialEq, Eq)]
pub struct CPU {
    pub registers: Registers,
    pub pc: u16,
    pub sp: u16,
    pub memory: [u8; 0x10000],
    pub boot_rom: [u8; 256],
    pub boot_rom_active: bool,
    pub ly: u8,
    pub ly_divider: u32,
    pub div_counter: u32,
    pub ime: bool,
}

/// The mathematical model of a `CPU`: the same state with the two byte
/// arrays seen as sequences.
#[verifier::ext_equal]
pub struct CpuView {
    pub registers: Registers,
    pub pc: u16,
    pub sp: u16,
    pub memory: Seq<u8>,
    pub boot_rom: Seq<u8>,
    pub boot_rom_active: bool,
    pub ly: u8,
    pub ly_divider: u32,
    pub div_counter: u32,
    pub ime: bool,
}

impl View for CPU {
    type V = CpuView;

    open spec fn view(&self) -> CpuView {
        CpuView {
            registers: self.registers,
            pc: self.pc,
            sp: self.sp,
            memory: self.memory@,
            boot_rom: self.boot_rom@,
            boot_rom_active: self.boot_rom_active,
            ly: self.ly,
            ly_divider: self.ly_divider,
            div_counter: self.div_counter,
            ime: self.ime,
        }
    }
}

impl CpuView {
    /// The LCD status register as the processor sees it: the stored bits
    /// with the two mode bits replaced by the mode of the current line.
    pub open spec fn stat(self) -> u8 {
        let base = self.memory[0xFF41] & 0xFC;
        if self.ly >= 144 {
            base | 0x01
        } else if self.ly_divider < 80 {
            base | 0x02
        } else if self.ly_divider < 252 {
            base | 0x03
        } else {
            base
        }
    }

    /// What a read of `addr` returns.
    pub open spec fn read(self, addr: u16) -> u8 {
        if self.boot_rom_active && addr < 0x0100 {
            self.boot_rom[addr as int]
        } else if addr == 0xFF41 {
            self.stat()
        } else if addr == 0xFF44 {
            if self.boot_rom_active {
                0x90
            } else {
                self.ly
            }
        } else {
            self.memory[addr as int]
        }
    }

    /// The state with one byte of memory replaced, bypassing the memory map.
    pub open spec fn poke(self, addr: int, value: u8) -> CpuView {
        CpuView { memory: self.memory.update(addr, value), ..self }
    }

    /// The memory after the sprite-attribute DMA started by writing `value`
    /// to 0xFF46: the written byte is stored, then the 160 bytes read from
    /// `value * 0x100` onwards are copied to 0xFE00..0xFEA0.
    pub open spec fn dma_memory(self, value: u8) -> Seq<u8> {
        let s1 = self.poke(0xFF46, value);
        Seq::new(
            0x10000,
            |k: int|
                if 0xFE00 <= k < 0xFEA0 {
                    s1.read((value as int * 0x100 + (k - 0xFE00)) as u16)
                } else {
                    s1.memory[k]
                },
        )
    }

    /// The memory after a write of `value` to `addr`.
    pub open spec fn written_memory(self, addr: u16, value: u8) -> Seq<u8> {
        if addr == 0xFF04 {
            self.memory.update(0xFF04, 0)
        } else if addr == 0xFF02 {
            self.memory.update(0xFF02, if value & 0x80 != 0 { value & 0x7F } else { value })
        } else if addr == 0xFF46 {
            self.dma_memory(value)
        } else if addr == 0xFF50 {
            self.memory
        } else {
            self.memory.update(addr as int, value)
        }
    }

    /// The state after a write of `value` to `addr`: memory as
    /// `written_memory` gives it, and the boot ROM unmapped by writing 1 to 0xFF50.
    pub open spec fn write(self, addr: u16, value: u8) -> CpuView {
        CpuView {
            memory: self.written_memory(addr, value),
            boot_rom_active: self.boot_rom_active && !(addr == 0xFF50 && value == 1),
            ..self
        }
    }

    pub open spec fn with_pc(self, pc: u16) -> CpuView {
        CpuView { pc, ..self }
    }

    pub open spec fn with_sp(self, sp: u16) -> CpuView {
        CpuView { sp, ..self }
    }

    pub open spec fn with_registers(self, registers: Registers) -> CpuView {
        CpuView { registers, ..self }
    }

    pub open spec fn with_ime(self, ime: bool) -> CpuView {
        CpuView { ime, ..self }
    }

    /// The program counter moved `n` bytes forward.
    pub open spec fn advance(self, n: int) -> CpuView {
        self.with_pc(add16(self.pc, n))
    }

    /// The byte that follows the opcode.
    pub open spec fn imm8(self) -> u8 {
        self.read(self.pc)
    }

    /// The little-endian word that follows the opcode.
    pub open spec fn imm16(self) -> u16 {
        word(self.read(add16(self.pc, 1)), self.read(self.pc))
    }

    pub open spec fn reg(self, r: Reg8) -> u8 {
        match r {
            Reg8::A => self.registers.a,
            Reg8::F => self.registers.f,
            Reg8::B => self.registers.b,
            Reg8::C => self.registers.c,
            Reg8::D => self.registers.d,
            Reg8::E => self.registers.e,
            Reg8::H => self.registers.h,
            Reg8::L => self.registers.l,
        }
    }

    pub open spec fn set_reg(self, r: Reg8, v: u8) -> CpuView {
        let g = self.registers;
        self.with_registers(
            match r {
                Reg8::A => Registers { a: v, ..g },
                Reg8::F => Registers { f: v, ..g },
                Reg8::B => Registers { b: v, ..g },
                Reg8::C => Registers { c: v, ..g },
                Reg8::D => Registers { d: v, ..g },
                Reg8::E => Registers { e: v, ..g },
                Reg8::H => Registers { h: v, ..g },
                Reg8::L => Registers { l: v, ..g },
            },
        )
    }

    pub open spec fn bc(self) -> u16 {
        word(self.registers.b, self.registers.c)
    }

    pub open spec fn de(self) -> u16 {
        word(self.registers.d, self.registers.e)
    }

    pub open spec fn hl(self) -> u16 {
        word(self.registers.h, self.registers.l)
    }

    /// The register pair `hi`:`lo` set to `v`.
    pub open spec fn set_pair(self, hi: Reg8, lo: Reg8, v: u16) -> CpuView {
        self.set_reg(hi, high_byte(v)).set_reg(lo, low_byte(v))
    }

    /// Two bytes pushed: `hi` below the old stack pointer, then `lo` below it.
    pub open spec fn push(self, hi: u8, lo: u8) -> CpuView {
        self.write(add16(self.sp, -1), hi).write(add16(self.sp, -2), lo).with_sp(add16(self.sp, -2))
    }

    /// The word on top of the stack.
    pub open spec fn top(self) -> u16 {
        word(self.read(add16(self.sp, 1)), self.read(self.sp))
    }

    /// The stack pointer after a pop of one word.
    pub open spec fn pop(self) -> CpuView {
        self.with_sp(add16(self.sp, 2))
    }
}

/// How many bytes of a game ROM image of `len` bytes are loaded.
pub open spec fn rom_size(len: nat) -> nat {
    if len < 0x8000 {
        len
    } else {
        0x8000
    }
}

impl CPU {
    /// A processor at reset: everything cleared, boot ROM mapped.
    pub fn new() -> (cpu: Self)
        ensures
            cpu.registers == (Registers { a: 0, f: 0, b: 0, c: 0, d: 0, e: 0, h: 0, l: 0 }),
            cpu.pc == 0,
            cpu.sp == 0,
            forall|i: int| 0 <= i < 0x10000 ==> cpu.memory@[i] == 0,
            forall|i: int| 0 <= i < 256 ==> cpu.boot_rom@[i] == 0,
            cpu.boot_rom_active,
            cpu.ly == 0,
            cpu.ly_divider == 0,
            cpu.div_counter == 0,
            !cpu.ime,
            cpu@.timers_wf(),
    {
        CPU {
            registers: Registers::new(),
            pc: 0x0000,
            sp: 0x0000,
            memory: [0u8; 0x10000],
            boot_rom: [0u8; 256],
            boot_rom_active: true,
            ly: 0,
            ly_divider: 0,
            div_counter: 0,
            ime: false,
        }
    }

    /// Reads one byte through the memory map.
    pub fn read_byte(&self, address: u16) -> (b: u8)
        ensures
            b == self@.read(address),
    {
        if self.boot_rom_active && address < 0x0100 {
            return self.boot_rom[address as usize];
        }
        match address {
            0xFF41 => {
                let base_stat = self.memory[0xFF41] & 0xFC;
                if self.ly >= 144 {
                    base_stat | 0x01
                } else {
                    if self.ly_divider < 80 {
                        base_stat | 0x02
                    } else if self.ly_divider < 252 {
                        base_stat | 0x03
                    } else {
                        base_stat
                    }
                }
            },
            0xFF44 => {
                if self.boot_rom_active {
                    0x90
                } else {
                    self.ly
                }
            },
            _ => self.memory[address as usize],
        }
    }

    /// Installs a 256-byte boot ROM image.
    pub fn load_boot_rom_bytes(&mut self, bytes: &[u8])
        requires
            bytes@.len() == 256,
        ensures
            final(self)@ == (CpuView { boot_rom: bytes@, ..old(self)@ }),
    {
        let mut i: usize = 0;
        while i < 256
            invariant
                i <= 256,
                bytes@.len() == 256,
                self.boot_rom@.len() == 256,
                forall|k: int| 0 <= k < i ==> self.boot_rom@[k] == bytes@[k],
                self@ == (CpuView { boot_rom: self.boot_rom@, ..old(self)@ }),
            decreases 256 - i,
        {
            self.boot_rom[i] = bytes[i];
            i = i + 1;
        }
        assert(self.boot_rom@ =~= bytes@);
    }

    /// Copies a game ROM image into the cartridge area 0x0000..0x8000; an
    /// image longer than 0x8000 bytes is cut there.
    pub fn load_game_rom_bytes(&mut self, bytes: &[u8])
        ensures
            final(self)@ == (CpuView {
                memory: bytes@.take(rom_size(bytes@.len()) as int) + old(self)@.memory.skip(
                    rom_size(bytes@.len()) as int,
                ),
                ..old(self)@
            }),
    {
        let size = if bytes.len() < 0x8000 { bytes.len() } else { 0x8000 };
        let mut i: usize = 0;
        while i < size
            invariant
                i <= size,
                size == rom_size(bytes@.len()),
                self.memory@.len() == 0x10000,
                forall|k: int| 0 <= k < i ==> self.memory@[k] == bytes@[k],
                forall|k: int| i <= k < 0x10000 ==> self.memory@[k] == old(self).memory@[k],
                self@ == (CpuView { memory: self.memory@, ..old(self)@ }),
            decreases size - i,
        {
            self.memory[i] = bytes[i];
            i = i + 1;
        }
        assert(self.memory@ =~= bytes@.take(size as int) + old(self)@.memory.skip(size as int));
    }

    /// Writes one byte through the memory map.
    pub fn write_byte(&mut self, address: u16, value: u8)
        ensures
            final(self)@ == old(self)@.write(address, value),
    {
        match address {
            0xFF04 => {
                self.memory[0xFF04] = 0;
            },
            0xFF02 => {
                if (value & 0x80) != 0 {
                    self.memory[0xFF02] = value & 0x7F;
                } else {
                    self.memory[0xFF02] = value;
                }
            },
            0xFF46 => {
                self.memory[0xFF46] = value;
                let ghost s1 = self@;
                let source_base: u16 = (value as u16) << 8;
                assert(source_base == value * 0x100) by (bit_vector)
                    requires
                        source_base == (value as u16) << 8,
                ;
                let mut i: u16 = 0;
                while i < 160
                    invariant
                        i <= 160,
                        source_base == value * 0x100,
                        s1 == old(self)@.poke(0xFF46, value),
                        self.registers == s1.registers,
                        self.pc == s1.pc,
                        self.sp == s1.sp,
                        self.boot_rom@ == s1.boot_rom,
                        self.boot_rom_active == s1.boot_rom_active,
                        self.ly == s1.ly,
                        self.ly_divider == s1.ly_divider,
                        self.div_counter == s1.div_counter,
                        self.ime == s1.ime,
                        forall|k: int|
                            0 <= k < 0x10000 ==> #[trigger] self.memory@[k] == if 0xFE00 <= k < 0xFE00
                                + i {
                                s1.read((value as int * 0x100 + (k - 0xFE00)) as u16)
                            } else {
                                s1.memory[k]
                            },
                    decreases 160 - i,
                {
                    let src_addr = source_base + i;
                    let byte_to_copy = self.read_byte(src_addr);
                    assert(self.memory@[src_addr as int] == s1.memory[src_addr as int]);
                    assert(self.memory@[0xFF41] == s1.memory[0xFF41]);
                    assert(byte_to_copy == s1.read(src_addr));
                    self.memory[0xFE00 + i as usize] = byte_to_copy;
                    i = i + 1;
                }
                assert(self.memory@ =~= old(self)@.write(address, value).memory);
            },
            0xFF50 => {
                if value == 1 {
                    self.boot_rom_active = false;
                }
            },
            _ => self.memory[address as usize] = value,
        }
    }

    /// Reads the byte at the program counter and moves past it.
    pub fn fetch_byte(&mut self) -> (byte: u8)
        ensures
            byte == old(self)@.imm8(),
            final(self)@ == old(self)@.advance(1),
    {
        let byte = self.read_byte(self.pc);
        self.pc = self.pc.wrapping_add(1);
        byte
    }
}

} // verus!
