# rafn

A benchmark-tracking command-line tool: it detects a project's benchmark
framework, runs it, ingests the results (Criterion, Google Benchmark, JMH,
BenchmarkDotNet), stores them per commit locally or in a remote service, and
compares commits to flag regressions.

## Layout

- `src/` is the library, verified with Verus. Its contracts are stated over
  spec models (`Seq`, `Map`, views of each type) and cover:
  - `comparison`: pairing series of two commits, classifying each change
    against a threshold, ordering and summarising the report, with the laws
    that tie these together (`comparison/laws.rs`);
  - `framework`: framework detection and the run plan for each framework;
  - `ingest`: format detection and the pure parts of each result parser;
  - `store`: local snapshot naming and lookup, trend extraction, and the
    mapping of remote replies into report values;
  - `config`, `git`, `record`, `lock`, `discovery`, `commands`: configuration
    layering, repository detection from remotes, record building, lock
    deadlines, result discovery rules and per-command decisions.
  - `json`: JSON values as `serde_json` parses them, with member lookup;
    `discovery` reads a Criterion benchmark's files through it.
  - `floatbits` models an IEEE binary64 value by its bit pattern, so that
    the comparison logic can be stated without floating point.
- `app/` is the command-line program around the library: argument parsing,
  file and process I/O, serialisation, terminal output and the cross-process
  lock.
- `tests/` exercises the library on concrete values.

Verification: `verus` on `src/lib.rs` with the outside crates listed in
`Cargo.toml`.
