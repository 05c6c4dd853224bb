# component_sharp_lr35902

An emulator of the Sharp LR35902 processor (the CPU of the Game Boy), written in Verus: every
instruction it executes is proved to do what its specification says.

- `src/registers.rs`, `src/state.rs`: the registers, and `CpuState`, the mathematical model of
  the processor (8-bit registers, flags, stack pointer, program counter, memory).
- `src/cpu.rs`: `Cpu`, its view as a `CpuState`, and the register, flag and memory accessors.
- `src/semantics.rs`: what each instruction does to a `CpuState`, when it runs to its end, and
  how many clock ticks it takes.
- `src/decode.rs`: the encoding of the instructions, by opcode fields, and a decoder.
- `src/instructions.rs`, `src/alu.rs`: the execution of each instruction form.
- `src/execute.rs`: `Cpu::execute`, which runs the instruction given by its bytes, and
  `Cpu::try_execute`, which first decides whether it can.
- `src/laws.rs`: properties across operations (register and flag read-after-write, `PUSH`/`POP`,
  `CALL`/`RET`, and others).
- `src/utils.rs`, `src/video.rs`, `src/audio.rs`, `src/logging.rs`: the helpers and interface
  types shared with the frontends.
- `app/`: the frontend side that performs I/O (logging to standard output).
