# sabiboy

A Game Boy (DMG) and Game Boy Color emulator core whose behaviour is stated in Verus
contracts and proved.

- `src/` — the verified library: the SM83 processor (decoder, instruction semantics, cycle
  table, interrupts), the memory bus with its cartridge controllers (MBC0/1/3/5 and the
  MBC3 clock), timer, joypad, the picture processing unit (OAM scan, background/window and
  sprite fetchers, pixel FIFOs), the audio unit (four channels, frame sequencer, integer
  mixer), save states, the trace-log and single-step conformance harnesses, and the
  debugger's snapshot and picture.
- `tests/` — tests of the library.
- `app/` — the desktop front end: window, keyboard, audio output, save-state files,
  debugger window, and command-line runners for the conformance tests.
