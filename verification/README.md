# zinc64

A Commodore 64 emulator toolkit whose components carry Verus contracts:
the MOS 6510 CPU (decoding and executing every documented opcode and the
LAX/AXS extras, interrupts, reset), the MOS 6526 CIA with its timers,
time-of-day clock and interrupt control, the datassette, joysticks,
keyboard, cartridges and the expansion port, the CRT/P00/PRG/TAP/binary
and hex-listing loaders, and the debugger's command language with its replies.

## Layout

- `src/` — the verified library.
  - `common/` — pins, interrupt lines, I/O ports, RAM/ROM, the `Tick`
    clock signal (one tick per CPU cycle) and the `Chip`, `Mmu` and
    `Addressable` traits.
  - `cpu/` — the machine model (`machine.rs`), the instruction semantics as
    spec functions (`semantics.rs`), the executable CPU (`cpu6510.rs`,
    `execute.rs`), decoding (`instruction.rs`), addressing (`operand.rs`)
    and instruction-set laws (`laws.rs`).
  - `io/` — the CIA and its parts.
  - `device/` — datassette, tapes, joysticks, keyboard, cartridges.
  - `loader/` — image loaders and loader choice by file extension.
  - `app/` — debugger commands, disassembly, reply text, character sets,
    host input routing and the front end's run-state decisions.
- `tests/` — executable tests of the library.
- `app/` — the command-line program: option parsing, file reading and the
  debugger's TCP connections.
