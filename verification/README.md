# adnum

Reverse-mode automatic differentiation on a tape.

- `src/` is the verified library. It is generic over the scalar type and never
  computes with it: it decides what each operation records on the tape (which
  node, with which parent ids and partials), which number it gives back, and in
  which order the reverse sweep accumulates adjoints.
  - `node.rs`: `ADNode`, one recorded operation.
  - `tape.rs`: `Tape`, the recorded nodes and the recording flag.
  - `adnum.rs`: `ADNum`, the operations, and a model (`step`) of each.
  - `sweep.rs`: the reverse sweep schedule (`Tape::adjoint_steps`).
  - `laws.rs`: properties of `step` that hold for every operation.
- `app/` is the `f64` front end: a thread-local tape, the operator traits, and
  the `num_traits` and `serde` traits. It computes the floating-point values
  and partials and hands them to the library.
