# Flexweave

Deterministic, domain-neutral mechanics primitives: object identity, attached data, tags and
queries, abilities and their activation lifecycle, active effects with clocks and periods,
definition registries, lifecycle facts, event channel definitions, and signals.

## Layout

- `src/` is the library, written in Verus. Every data structure carries a mathematical model
  (`Seq`, `Map` and spec functions over them) and a well-formedness predicate. Operations state
  what they return, how they change the store, which lifecycle facts they report (ids, keys,
  references, clocks, reasons and flags; tags and payloads are not part of the fact model), and
  what they hand to caller-owned gates, actions and initializers. Laws that span several
  operations stand as public proof functions (`lemma_*`), for instance in `src/effect/laws.rs`,
  `src/ability/laws.rs`, `src/object_map.rs`, `src/identity.rs` and `src/ability/store.rs`.
- `app/` is ordinary Rust around the library: floating-point attributes and derived attributes,
  closure-based listeners, event channels with shared connection handles, and the drivers that
  hold caller stores as trait objects. Each of these calls into the verified operations.
- `tests/` exercises the library from the outside.
