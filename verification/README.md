# sequents

Linear classical System L as a programming language: the λμμ̃-calculus with
multiplicative, additive and exponential connectives, verified with Verus.

- `src/formula.rs` — formulas, De Morgan duality and polarity, with the
  involution and polarity laws.
- `src/types.rs` — resources, terms, coterms, introduction and elimination
  forms, the `Body` trait for user continuations, typing of terms and
  coterms, promotion and dereliction.
- `src/binder.rs` — μ, μ̃ and the structural constructors.
- `src/reduce.rs` — `cut` over the 3×3 pairing, the reduction and
  substitution rules, and the laws of the cut (definedness on dual types,
  progress, subject reduction).
- `src/machine.rs` — commands, redexes, one reduction step, and `run`.
- `src/var.rs` — variable tokens.
- `app/main.rs` — worked examples.

User code (continuations, producers of `!`) implements `Body`; the tests
write it as Rust closures.
