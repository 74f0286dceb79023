# memable

An embeddable durable execution engine for Rust, with its decisions verified by
[Verus](https://github.com/verus-lang/verus).

Workflows recover by key-based memoisation: the result of every step is kept in
a row of its own, and a step whose row says that it completed is not executed
again, however often the instance is resumed.

## Layout

- `src/` is the verified library. It decides and computes: which rows an
  operation writes, which state it announces, what it returns. Each function's
  contract says so over mathematical views of the values, and `guarantees.rs`
  states what the parts guarantee together.
- `app/` carries the decisions out: a `redb` store, `tokio` tasks and timers,
  status channels, and the typed API that encodes results with `serde` and
  `postcard`.
- `tests/` runs the library: `values.rs` its small types, `entries.rs` its rows
  and single decisions, `scenarios.rs` whole workflows on a store in memory.

## How the two fit together

The library takes the rows that are kept for an operation and hands back the
rows to write as a list of `Write`s, which belong in one transaction. Results
of the user's types come in encoded, with the name of their type as a tag, and
are read back by a parser that the caller passes in.

What is not proved but taken from `postcard` and from the standard library is
marked `external_body` or `assume_specification`, in `codec.rs` (encoding and
decoding of single fields), `clock.rs` (the system clock and random numbers)
and `error.rs` (the text of a duration).
