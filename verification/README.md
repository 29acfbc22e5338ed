# Yidika

The back half of a compiler for the Yidika language, written in Verus: a syntax tree becomes the text
of an LLVM module or of a C program. Around it stand the diagnostics, the description of the machine
that is compiled for, the command line, and the decisions of a build.

## Layout

- `src/` is the library. Every function states what it returns or changes, and Verus proves it. Those
  that ask the system about this machine (`hardware/machine.rs`, `hardware/memory.rs`) state which question
  each number answers, whatever the answer is.
  - `codegen/llvm/` is the LLVM back end. `state.rs` holds the generator and its model `Gen`; the other
    files say, for each kind of expression, statement and item, how the model changes, and the
    generator follows it. `laws.rs`, `growth.rs` and `identity.rs` hold what is proved of the whole.
    `reply.rs` says what a request handler leaves in the buffer of its caller.
  - `codegen/c.rs` is the C back end, `codegen/c/laws.rs` what is proved of it.
  - `codegen/literals.rs` proves that string literals hold the text that they were made of.
  - `codegen/emit.rs` is the order of the calls into the LLVM library, with what is done when one fails.
  - `codegen/toolchain.rs` holds the scripts and commands of a build, `codegen/backend.rs` the back ends.
  - `diagnostics/` holds errors, warnings and their previews, `hardware/` the machine
    (`layout.rs`: the lines of its description), `cli.rs` the
    command line, `syntax/` the syntax tree.
  - `text.rs`, `scan.rs` and `table.rs` are what the rest is built on: text, searching, and tables that
    keep their order.
- `tests/` runs the library. `programs.rs` reads source text, compiles it, and runs the LLVM text on a
  small machine of its own.
- `app/` is ordinary Rust around the library: files, processes, the LLVM library and the runtime in C.
  The front end (reading, checking and interpreting programs) is handed in as a trait.

## What is trusted

- `String::push` and `char::is_alphanumeric` (`src/text.rs`) and `String::from_utf8_lossy`
  (`src/hardware/cpu.rs`) of the standard library.
- `sysinfo` (`src/hardware/machine.rs`), whose answers depend on the machine: nothing is claimed of
  their size.
