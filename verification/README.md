# pups2

A PlayStation 2 emulator whose machine model is a library verified with Verus: every
function of `src/` carries a contract that Verus proves.

## Layout

- `src/bits.rs`, `src/bytes.rs`, `src/fix.rs`, `src/fifo.rs`, `src/enum_set.rs`: bit fields,
  little-endian encoding, fixed-point numbers, a bounded ring buffer and a bit set.
- `src/emotion_engine/cpu/`: the Emotion Engine core: instruction decoding and assembly text,
  the interpreter, coprocessor 0, the FPU registers, the MMU with its TLB and page tables.
- `src/emotion_engine/bus.rs`, `memory.rs`, `timer.rs`, `dmac.rs`, `gif.rs`, `rdram.rs`,
  `scheduler.rs`: the bus with main memory, boot ROM and scratchpad, and the devices on it.
- `src/emotion_engine/gs/`: the graphics synthesizer: register decoding, the drawing
  registers, pixel storage, pixel drawing, vertex kicks and the display circuits.
- `src/emotion_engine/program.rs`: loading a program: its ELF segments (read with the `elf`
  crate) into main memory and its entry point into the core, a boot image into boot memory,
  and the disassembly of a segment word by word.
- `src/instruction_format.rs`: reading instruction format descriptions.
- `app/`: the program: command line, reading files, printing, the main loop, floating-point rasterisation
  and arithmetic, and the window.
- `tests/`: tests of the library on concrete values.

The core is interpreted. There is no just-in-time compiler: one would emit machine code into
executable memory and jump to it, which no contract here could speak of. `src/emotion_engine/cpu/jit.rs`
holds the code cache's entries and the index by which they are found, not the compiler.

Each function the program calls whose contract has a precondition has a companion check
(`Core::supports`, `Bus::can_read`, `Gs::supports_pixel`, `Gif::can_unpack`, ...) that the
program tests first.
