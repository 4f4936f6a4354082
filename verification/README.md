# sturdygb

A Game Boy (DMG and CGB) emulator core whose behaviour is stated in Verus contracts and
proved.

- `src/` is the verified library: cartridge header parsing and the memory bank controllers
  (`cartridge`, `mbcs`), the memory bus and the machine (`gb`, `prelude`), the PPU with its
  pixel fetcher and FIFOs (`ppu`), HDMA (`hdma`), the APU as integer channel levels
  (`sound`), timer, joypad, serial port and interrupts, the disassembler (`disasm`), the
  debugger's views and run control (`debugger`, `debug_views`, `stepping`), the game library
  listing (`library`), palettes (`palette`), save-file helpers (`persistence`) and the stop
  conditions of visual test captures (`visual`).
- `app/` is a small command-line program around the library: it reads a ROM and its battery
  save, prints the machine state and a disassembly, mixes audio samples to floating point and
  writes the save back.
- `tests/` runs the library on concrete inputs.
