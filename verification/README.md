# gbemu

The core of a Game Boy emulator: the memory map (cartridge ROM and RAM with bank switching,
VRAM, WRAM, OAM, I/O registers, high RAM), the register file and flags, and the CPU's
fetch-decode-execute step, each verified with Verus against a mathematical model of the machine.

- `src/machine.rs`: the model (`Machine`) and what a memory read or write does to it.
- `src/semantics.rs`: what each instruction does to the model.
- `src/gameboy.rs`: the executable machine, its memory accesses and registers.
- `src/cpu.rs`: operand access, the ALU, the $CB-prefixed instructions, `fde` and `step`.
- `src/laws.rs`: properties that hold across operations (read after write, push then pop,
  register and flag round trips, ALU arithmetic, the low nibble of F, well-formedness).
- `app/`: the program that loads a ROM, runs `step` in a loop and prints the console output,
  and the raylib drawing code.
