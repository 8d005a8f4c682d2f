# cmemu_lib: a verified model of the Cortex-M3 core pipeline

This crate models the core of an ARM Cortex-M3 cycle by cycle: the fetch stage with its
prefetch queue and bus transfers, the Thumb decoders and the decode stage, and the
execution of instructions. The functions are written in Verus and proved against
contracts stated over mathematical models (integers, sequences, views of the data types).
The exception are the small wrappers in `src/fetch/buffers.rs` over the fixed-capacity
deques of the `heapless` crate: their contracts describe what those deque methods do and
are trusted, not proved.

Layout of `src/`:

- `common.rs`, `registers.rs`, `instruction.rs`, `builtins.rs`: words and addresses, core
  registers, the program status register and condition codes, the decoded instructions.
- `thumb16.rs`, `thumb32.rs`: the 16-bit and 32-bit Thumb decoders, each a total function
  from encodings to instructions, with a specification per encoding group.
- `decode.rs`, `agu.rs`, `decode_stage.rs`: branch status, the address generation unit and
  the decode stage as a state machine.
- `fetch.rs` and `fetch/`: the prefetch input queue (over a bounded deque), the
  instruction bus transfers and the fetch stage; `fetch/shadow_law.rs` proves, over whole
  runs of calls on a fresh queue, when the shadow ring keeps showing the F/D register.
- `alu.rs`: addition with carry and overflow, shifts with carry out, saturation,
  extension, bit fields, multiplication and division.
- `execute.rs`, `execute_step.rs`, `memory.rs`, `memory_step.rs`, `system_step.rs`: one
  cycle of execution of data-processing and branch instructions, of memory transfers and of
  the instructions that access the special registers, with their timing.

The stages take what the rest of the core shows them in a cycle as plain values and return
what they ask of it, so that a simulation engine can drive them.
