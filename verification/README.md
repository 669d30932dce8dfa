# chip8

A CHIP-8 interpreter whose core is verified with Verus.

- `src/` is the verified library. `state.rs` models the whole machine as mathematical
  values (`CpuState`) and defines what each instruction does to it; `cpu.rs` carries the
  instructions out on the concrete machine and proves that it does exactly that.
  `instruction.rs` decodes opcodes, `memory.rs`, `stack.rs`, `registers.rs` and
  `display.rs` are the machine's parts, `audio.rs` decides what the tone player is told,
  and `laws.rs` states properties that span several operations.
- `app/` is the program around it: the window, the frame timing, reading the ROM from
  disk and the sound output.
