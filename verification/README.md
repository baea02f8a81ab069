# prost_map

Reading and code generation for map fields of protobuf messages, verified with Verus.

- `src/attr.rs` — the attribute model (`Meta`) and the `tag` attribute.
- `src/scalar.rs` — protobuf scalar types: names, encoding modules, Rust types, debug wrappers.
- `src/map.rs` — `MapTy`, `ValueTy`, `Wrapper`, `Field`, and `Field::new`, which reads a
  field's attributes one by one (`FieldAttrs::absorb`).
- `src/codegen.rs` — the source text that encodes, merges, measures, clears and shows a
  map field, and the accessors of maps of enumerations.
- `src/text.rs` — trimming, comparison, decimal numbers.
- `src/laws.rs` — properties across these functions (round trips of names and tags,
  `oneof` fields read as fields without an inferred tag, `encode` and `encoded_len` agreeing).
- `app/` — conversion from `syn` attributes, lexing of the generated text into
  `proc_macro2` tokens, and the `#[repr(transparent)]` casts that generated code calls.
