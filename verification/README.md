# gb_core

A Game Boy / Game Boy Color emulator core whose behaviour is stated in
contracts and proved with Verus.

## Layout

- `src/` — the verified library.
  - `cpu/` — registers, ALU, interrupts and the SM83 instruction set
    (`instructions.rs` states every opcode as a spec function); `Cpu::tick`
    runs one instruction and the devices.
  - `mmu.rs` — the CGB memory map, HDMA/OAM DMA, speed switch, save-state
    memory snapshots.
  - `cartridge/` — header parsing and the MBC0/1/2/3/5 controllers.
  - `ppu/` — the scanline PPU, tile and sprite rendering, CGB palette RAM,
    DMG colour palettes.
  - `apu/` — the square, wave and noise channels and the frame sequencer;
    the unit records what its mixer sees for each step.
  - `timer.rs`, `input.rs`, `serial.rs`, `gbc_bios_palettes.rs`.
  - `dmg/` — the DMG-only core (memory map, cartridge, timer, PPU, CPU).
  - `runner.rs`, `renderer.rs`, `keymap.rs`, `desktop.rs` — frame runner and
    the desktop front end's session logic.
  - `state.rs`, `server.rs` — the web front end's emulator state and replies.
  - `save_state.rs`, `rom_test.rs` — save states and the headless test-ROM
    runner.
- `tests/` — tests run against the compiled library.
- `app/` — the web server (axum), the desktop window loop (minifb) with
  its save-state file (serde and bincode), the test-ROM runner's file
  handling, and the floating-point audio mixer. `app` starts the web
  server, `app desktop [ROM]` the window, `app blargg <ROM | DIR/>` the
  test-ROM runner.
