# chip8

A CHIP-8 interpreter core written in Verus, with a windowed front end.

- `src/state.rs` – the mathematical model of the machine (`CpuState`) and the
  meaning of every instruction as a function from state to state, with the
  conditions under which an instruction can run.
- `src/cpu.rs` – the machine (`Cpu`): construction, ROM loading, fetch,
  the decoder and every instruction, each proved to implement its model.
- `src/laws.rs` – properties across instructions: call/return, redrawing a
  sprite erases it, drawing without overlap flips exactly the covered
  pixels, store/load of registers, XOR twice, complementary skips, timers
  after many ticks, decimal conversion, carry and borrow flags, waiting for
  a key, the font, and that every cycle keeps the machine's shape and stack
  depth.
- `src/random.rs` – the random byte of `CXNN`, drawn from `rand`.
- `app/main.rs` – the program: reads a ROM, opens a window with `winit`
  and `pixels`, maps the keyboard with `winit_input_helper`, and runs the
  machine at 500 Hz with 60 Hz timers.
