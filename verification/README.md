# A verified Game Boy (DMG) processor core

The crate models the Sharp LR35902 processor of the original Game Boy: its
registers, the 64 KiB memory map with the boot ROM overlay, the divider and
LCD line timers, the V-Blank interrupt, and the subset of the instruction set
that the boot ROM and early games use.

Every executable function is proved with Verus against a mathematical model:

- `src/bits.rs` — flag bytes, 16-bit register pairs, wrapping arithmetic.
- `src/cpu.rs` — `CPU`, `Registers`, the model `CpuView`, and the memory map
  (`read_byte`, `write_byte` with the sprite DMA, `fetch_byte`, ROM loading).
- `src/isa.rs` — what each instruction does to the model.
- `src/instructions.rs` — the instructions, one method per opcode.
- `src/machine.rs` — opcode decoding (`execute`, `execute_cb`) and the machine
  cycle (`tick`: timers, interrupt dispatch, one instruction).
- `src/laws.rs` — properties across operations: read-after-write, push/pop and
  call/ret round trips, timer ranges, the boot ROM staying unmapped, and more.

`app/main.rs` is the program: it reads the ROM images from disk and runs the
machine, stopping on an opcode that is not implemented.
