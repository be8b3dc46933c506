# Game Boy CPU core

A verified model of the Game Boy's LR35902 CPU: eight-bit registers and
their pairs, the flag register, a 64 KiB address space, the stack, and the
instructions the core runs, with a decoder and a disassembly listing.

Layout:

- `src/bytes.rs`: joining bytes into 16-bit words and splitting them.
- `src/hex.rs`: hexadecimal and binary text of numbers.
- `src/errors.rs`: the error type.
- `src/cpu/state.rs`: the mathematical model of the CPU state and flags.
- `src/cpu/instr.rs`: the instruction set, its decoder, and what each
  instruction does to the state.
- `src/cpu/mod.rs`, `ops.rs`, `exec.rs`: the CPU itself, one method per
  instruction, and `tick`, which runs one instruction.
- `src/cpu/listing.rs`: one line of listing text per instruction.
- `src/cpu/laws.rs`: properties that span several instructions.
- `app/`: printing the listing and the CPU state while it runs.
