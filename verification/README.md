# nes

A 6502 CPU core for the NES, with its memory bus and the CPU-facing side of
the picture-processing unit, verified with Verus.

- `src/semantics.rs` defines what every instruction does, as functions from
  one machine state (registers and bus contents) to the next, and what one
  fetch-decode-execute step and a run of steps lead to.
- `src/cpu.rs` is the executable CPU; each instruction, `step`, `run` and
  `load_and_run` are proved to follow `semantics.rs`.
- `src/bus.rs` maps the 16-bit address space onto work RAM, the PPU
  registers and program ROM; `src/ppu.rs`, `src/addr_register.rs` and
  `src/control_register.rs` model the PPU's memories and registers.
- `src/opcodes.rs` is the opcode table.

An access the hardware does not serve (a write-only register, ROM past its
end, a write to ROM) or an address computation past $FFFF makes the step
fail instead of panicking; `step`, `run` and `load_and_run` report it as
`Execution::Faulted`.

`app/` holds `run_with_callback`, a run loop that calls host code before each
instruction and panics on a failed step.
