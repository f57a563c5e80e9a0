# ifc_lite_core

A STEP/IFC entity parser whose logic is verified with Verus.

- `src/` is the verified library. The scanner (`scan`), the tokenizer
  (`parse`), the decoder (`decode`) and the event stream (`streaming`)
  each state their results over byte-level specifications: `scan_spec`
  and `scan_all` for the scanner, `entity_spec` and the token grammar for
  the tokenizer, and `events_from` for the stream.
- Lazy results are `comp_cat_rs` `Io` and `Stream` values. The contracts
  state what they yield through named results (`decoding_outcome`,
  `entity_stream_items`, `event_stream_items`); `parse_stream`'s contract
  gives its whole event sequence.
- Floating-point literals are kept as text; `app/` converts them to
  `f64` and supplies `Display` and `std::error::Error` through a wrapper.
- `tests/` holds the tests.
