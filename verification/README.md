# tx_rs

Composable transactions over a shared context, verified with Verus.

A transaction (`Tx<Ctx>`) runs once on `&mut Ctx` and yields `Ok(item)` or
`Err(error)`. Closures `FnOnce(&mut Ctx) -> Result<T, E>` are transactions,
`with_tx` wraps one, and the trait's methods build larger transactions:
`map`, `and_then`, `then`, `or_else`, `join`, `join3`, `join4`, `map_err`,
`try_map`, `recover`, `try_recover`, `abort`, `try_abort`.

Layout:

- `src/transaction.rs`: the trait, its model (`ready` / `outcome`), the
  combinators and the proofs that each `run` meets its model.
- `src/laws.rs`: laws relating the combinators (associativity of `and_then`,
  composition of `map`, `join3` / `join4` as nested joins, short-circuiting,
  and others).
- `src/notifier.rs`: the notifier interface and its error type.
- `app/`: a copy of the notifier error with its `thiserror` messages.
- `tests/`: the original scenarios and tests of the laws on values.
