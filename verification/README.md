# clin

The verified core of `clin`, a terminal notes application, written in Verus.

- `src/` is the library. Verus proves each of its functions against its
  `requires`/`ensures` contract (a few small helpers whose result needs no
  statement have none, and neither the clock reading of the debug log nor
  the `toml` calls that build the migrated file state anything of what
  they return); the public `proof fn`s state the laws the
  library keeps (round trips of textual forms, idempotent migration and
  normalisation, bounded histories and ring buffers, what undo and redo
  give back, and so on).
- `tests/` exercise the library on concrete values.
- `app/` is the command-line program around the library: argument parsing
  and file and terminal I/O. It hands the library plain values and takes
  plain values back. The terminal interface (note list, graph, drawing and
  backup views) is not part of this build; the library holds the decisions
  of those views that compute on plain values.

The few calls into other crates and into `std` that Verus cannot read
(`crossterm` styling, `uuid`, `chrono`'s date parsing, `toml` reading and
writing, the system clock, `std::path`, Unicode case and character
classes) go through small functions marked
`#[verifier::external_body]`, each with a doc comment that says what its
contract assumes.
