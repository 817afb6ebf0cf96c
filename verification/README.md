# orc2

JIT compilation through LLVM's ORC interface: contexts and modules that threads
can share, JIT dynamic libraries, resource trackers, definition generators,
materialization, transform layers, lazy compilation, and the LLJIT compiler.

## Layout

- `src/` is the library. It decides what is asked of LLVM and what is made of the
  replies, and Verus proves it. It holds no call into LLVM: an operation hands out
  a request (`Call`), and the continuation beside it takes the reply (`Reply`).
- `app/` makes the calls through `llvm-sys`, runs operations to their end, and has
  the types that a program uses, with `Drop`, `Debug` and the calls of compiled
  functions.
- `tests/` runs the library against a stand-in for LLVM.

## What is proved

Each function says in its contract which request it makes and what it does with
every reply. `src/laws.rs` states what single operations do from their first
request to their end. `src/run.rs` states what holds of all of them: they end, and
what an operation was responsible for is what it handed over to LLVM and what its
output holds.
