# join_desugarer

A verified pass over an aggregation pipeline that rewrites join stages into stages a
server runs:

- a `Join` becomes `Lookup`, `Unwind`, `ReplaceWith` and `Project`;
- an `EquiJoin` becomes `EquiLookup` and `Unwind`.

Layout:

- `src/air.rs`: the pipeline representation (stages and expressions).
- `src/projection.rs`: the `LinkedHashMap` of `$project` specifications and the trusted
  contracts of the two map operations used.
- `src/desugarer.rs`: the `Pass` and `Visitor` traits.
- `src/join_spec.rs`: what the pass makes of a pipeline (`desugars_to`).
- `src/join.rs`: the pass itself, verified against `desugars_to`.
- `src/join_laws.rs`: laws of the pass (no join survives, join-free pipelines are left
  alone, idempotence, one lookup per join).
