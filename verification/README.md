# seraph

Client library for the SERAPH storage and retrieval engine, with its
decision logic verified in Verus.

- `src/` is the verified library: the error value and its messages
  (`error`, `decimal`), the meaning of the status codes the engine returns
  around each call the client makes and the decoding of its JSON replies
  that list ids or frame records (`reply`), the decoding of federation replies (`federation`), store
  configuration and its JSON serialization (`config`, over `serde_json`
  through the trusted items in `json`), the plain records the engine reports
  (`records`), and the splitting of a batched encode's flat buffer into rows
  (`rows`).
- `app/` holds the `Store`, `Encoder`, `Federation`, `Snapshot` and
  `FrameView` handles. Each method calls the engine's C ABI and hands the
  raw reply to the library; records that carry floating-point numbers
  (`Hit`, `RegionHealth`, `SimilarityStats`, `FederatedHit`) live there too,
  and so does the conversion of the federation's scores to `f32`.
- `tests/` exercises the library on concrete values.
