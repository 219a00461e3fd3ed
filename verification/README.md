# pprof_core

A decoder for [pprof](https://github.com/google/pprof) profiles, written and proved in
[Verus](https://github.com/verus-lang/verus).

A profile, gzip-wrapped or not, becomes rows: flattened stacks, raw samples, functions,
locations, mappings and metadata. Ids are those of the profile, so the rows of different tables
join. Several sources can be read in one go; one that cannot be read or decoded gives an error
row of its own and leaves the others alone.

```rust
let profile = pprof_core::Decoded::from_bytes(&bytes)?;
for stack in profile.stacks() {
    // stack.frames[0] is the leaf; stack.value stands beside profile.meta().sample_types
}
```

- `src/` is the library. Every function states in its contract what it returns, over the
  functions in `src/flatten.rs` and the specification functions beside it. `src/laws/` holds
  what follows for the library as a whole: reading gives back what was written, stacks are the
  join of the raw tables, sources do not influence each other, results have the declared schema.
- `tests/` runs it, among other things against prost on the same bytes.
- `app/` is the worker that serves the tables: it looks up globs and reads files.

What is taken on trust is the varint reader of prost, the gzip decoder of flate2, the functions
of Arrow that make arrays, types and batches, and two functions of the standard library. Each
stands beside its contract in the source.
