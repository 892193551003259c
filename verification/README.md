# anomalies

Structured, categorized error handling, verified with Verus.

An error type signals its *category* (what kind of problem it is: `unavailable`,
`busy`, `not_found`, ...) and its retry *status* (`Temporary`, `Permanent`,
`Persistent`), so that callers can act on an error without knowing its type.

Layout:

- `src/category.rs`, `src/status.rs`: the categories and the retry statuses.
- `src/anomaly.rs`: the `Anomaly`, `HasCategory` and `HasStatus` traits.
- `src/typed.rs`: the category-specific sub-traits, with the category as a type
  parameter of `typed::Anomaly<C>`.
- `src/derive/`: what `#[derive(Anomaly)]` generates for a type, from its
  `#[category(...)]`, `#[status(...)]` and `#[anomaly(transparent)]` attributes,
  with the laws that hold of it (`src/derive/laws.rs`).
- `app/lib.rs`: the derive at the level of tokens (`syn` in, `quote` out) around
  the verified plan; the `#[proc_macro_derive]` function that calls it belongs in
  a crate of the `proc-macro` type.
