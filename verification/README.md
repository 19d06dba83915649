# chip_8_emulator

A CHIP-8 interpreter whose instruction set is specified and proved with Verus.

- `src/machine.rs`: the machine as mathematical values (`ProcView`) and what
  each instruction does to it (`ProcView::execute`, `ProcView::step`), with the
  conditions under which an instruction runs without a fault.
- `src/emulator.rs`: the processor `Proc`; each method is proved to do what the
  model says.
- `src/font.rs`, `src/keypad.rs`, `src/rom.rs`: the built-in font, the keyboard
  layout, and ROM images as words.
- `src/laws.rs`: properties across instructions (drawing twice restores the
  screen, a call followed by a return comes back, a loaded program is fetched
  back word for word, ...).
- `app/`: the SDL front end: window, keyboard events and the main loop. The
  processor tells it, through `Action`, when it has to read the keyboard or
  stop.
