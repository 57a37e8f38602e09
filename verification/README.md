# tpt_zero_formal

Runtime building blocks for design-by-contract code, written in Verus so
that each function's contract is proved.

## Layout

- `src/` — the verified library.
  - `assert_const`, `precond`, `postcond`, `invariants`, `loop_inv`:
    run-time range checks, pre/postconditions and invariants.
  - `bounded`: integers that always lie in their range.
  - `refinement`, `witness`, `ghost`: values tied to a predicate or a proof
    token.
  - `safe_cast`: integer casts that fail instead of losing information.
  - `type_level`, `phantom`, `newtype`, `fsm`: type-level numbers, variance
    markers, newtypes and typed state machines.
  - `smt_lite`: boolean and pseudo-boolean constraints with an enumeration
    solver, proved sound and complete for the assignments it enumerates.
  - `tensor`, `tensor2`: fixed-size vectors and matrices.
  - `grad`: dual numbers for forward-mode differentiation.
  - `rand`: the xorshift64 and PCG32 generators, specified bit for bit.
  - `text`: decimal rendering used by the textual forms of values.
- `tests/` — tests of the library on concrete values.
- `app/` — the floating-point side (numerics, statistics, distributions,
  samplers, float linear algebra, the float functions of dual numbers) and
  the macros, built on the library.

Laws that relate several functions are public proof functions whose names
start with `law_`.
