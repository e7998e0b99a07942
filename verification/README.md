# senate_simulator

A simulator of U.S. Senate behaviour on one legislative object: senator
profiles, each senator's stance toward the object, chamber analysis, the floor
action leadership is likely to take, the next procedural event, and the
pipeline that turns dated public records into snapshots, features and
evaluation sets.

The library under `src/` is verified with Verus. Scores are fixed-point
integers in ten-thousandths (`10000` is `1.0`); dates are day numbers
(`CalendarDate`), converted to and from calendar text through chrono.

- `util` — fixed-point arithmetic, text building, calendar, ranking, orderings.
- `model` — the data types and their well-formedness predicates.
- `derive` — heuristic and feature-driven stance derivation, and the laws
  relating stance scores to senator attributes (`derive::laws`).
- `analysis` — chamber analysis, floor-action assessment, next-event prediction.
- `features` — per-senator features from vote history, and senator profiles.
- `ingest` — record validation and normalization, snapshots, Congress API
  listings read into roster, legislation and action records, live-source
  reconciliation, Senate vote XML fields, public-signal records.
- `eval` — action alignment, historical timelines, evaluation examples, scoring.
- `backtest` — replaying a prediction against the action that followed.

`app/` holds what the library does not: the program's entry point, file and
network I/O, fixture JSON and vote XML decoding, and the dated-run orchestration
(`app/pipeline.rs`). `tests/` exercises the library on concrete scenarios.
