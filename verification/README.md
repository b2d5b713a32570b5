# emucore

Verified emulation cores for the NES and the Game Boy.

- `src/gd_emu/common`: the 6502 CPU (a cycle-stepped core and an
  instruction-stepped one), the CPU bus trait, the display window.
- `src/gd_emu/nes`: cartridges and boards (mappers 0, 1, 2, 5, 7, 9/10, 34,
  64, 66, 69, 71, 206), the PPU renderer, the sound unit, the rewind buffer,
  the CPU bus decoding, iNES image parsing and the controller port.
- `src/gd_emu/gameboy`: a Game Boy CPU front end (boot registers, CB
  operations, micro-steps).
- `src/mimesys/common`: the master-clock `Timed` trait, the scheduler, the
  Z80 register file.
- `src/mimesys/gameboy`: the Game Boy CPU, PPU, timer, joypad, OAM DMA,
  memory bank controllers, sound registers and square channels, palettes,
  cartridge header parsing and the bus's address rules.
- `app/`: host glue that is not verified: floating-point audio mixing,
  save-state encoding with serde/bincode, the system buses and run loops,
  frame hand-off between threads, file loading.

Everything in `src/` is checked by Verus, and most functions carry a
`requires`/`ensures` contract (a few cartridge accessors that only pass a
call on to the board do not); the proof functions named `lemma_*` are
public laws of the library (controller reads, mirroring, MMC1 loading, timer behavior,
composition of clock runs, and others).
