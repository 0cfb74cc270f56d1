# rustboy_core

A Game Boy (DMG) and NES emulator core, written in Verus: every function of the
library carries a contract that Verus proves.

## Layout

- `src/bits.rs`, `src/save_state.rs`: bit helpers and the little-endian save-state
  encoding, with the laws that decoding gives back what was encoded.
- `src/gb/`: the Game Boy: Sharp LR35902 CPU (`cpu.rs` for registers and the ALU,
  `cpu_exec.rs` for instruction semantics and interrupt dispatch), memory bus with
  MBC1 (`mmu.rs`), timer, PPU and APU, and `GbEmulator` with frames and save states.
- `src/nes/`: the NES: 6502 CPU, bus with OAM DMA and joypads, PPU with Loopy scrolling
  and sprites, APU, iNES parsing with mappers 0-4, and `NesEmulator`.
- `app/lib.rs`: the WebAssembly bindings (`Emulator`), which pick the system from the ROM
  header and mix the recorded channel levels into audio samples.
- `tests/`: executable tests of the library.

Audio is recorded as integer channel levels (four per Game Boy sample, five per NES
sample); the bindings turn them into floating-point samples.

Loading a save state checks its header, its length and that it describes a valid state,
and reports whether it was restored; the laws `lemma_save_load_roundtrip` (in `gb` and
`nes`) prove that loading what `save_state` wrote gives back the saved emulator.
