# haystack

Project Haystack values, their Zinc, Trio and JSON texts, a Zinc reader, the
decisions of a Haystack HTTP client and the tokens of a small awk-like
language, written in Verus and proved against their contracts.

## Layout

- `src/` is the verified library.
  - `h_*.rs`, `h_grid/`: the value types (null, marker, remove, NA, bool,
    number, string, xstr, URI, ref, symbol, date, time, date-time, coordinate,
    list, dict, grid). Each states its Zinc and JSON text as a spec function,
    and its writers append exactly that text.
  - `io/parse/`: the Zinc grammar as spec functions over characters
    (`grammar.rs`) and readers proved to follow it.
  - `io/write/`: the Zinc, Trio and JSON writers.
  - `io/roundtrip.rs`, `io/date_roundtrip.rs`, `io/grid_roundtrip.rs`:
    proofs that what the Zinc writer writes, the reader reads back.
  - `client/`: request bodies of the operations, command-line arguments to
    operations, connection settings, the SCRAM sign-in headers, the URL of
    a session and what each HTTP request is made of.
  - `token.rs`: the tokens of the awk-like language.
- `tests/`: tests of the library on concrete values.
- `app/`: the command-line client (HTTP, terminal, configuration file, REPL)
  and the Lua bindings, built on the library.

Calls into outside crates (`url`, `chrono`, `chrono-tz`, `base64`, `scram`,
`anyhow`, `tokio`, `is-terminal`, `reqwest`) stand behind small trusted functions whose
doc comments say what their contracts claim.
