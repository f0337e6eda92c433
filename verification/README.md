# rust_meth

A verified core for listing the methods of a Rust type by asking
`rust-analyzer`, written in Verus.

`src/` is the library. Each module states what it computes in `requires` /
`ensures` contracts over `Seq`, `Set` and `Map` models, and Verus proves the
code against them:

- `analyzer` — reading completion and definition answers into methods and
  locations (sorted, one method per name).
- `query`, `interactive`, `cli` — ranking and fuzzy filtering of methods,
  the query builder, and the decisions of a command-line run.
- `probe`, `cache_key`, `locations` — the probe projects handed to the
  analyzer, the in-process probe cache, and the persistent cache keys and
  directories.
- `lsp`, `session` — `Content-Length` framing, and the decisions of an
  analyzer session (diagnostics, indexing, retries).
- `args`, `links`, `display`, `daemon` — argument parsing, documentation
  links and editor commands, the text of the listing, and the daemon's
  protocol and decisions.
- `text`, `error` — character-sequence helpers and the error type.

`app/` is the program around it: the terminal, the child process and its
pipes, the file system, the daemon's socket, and the JSON conversions.
`tests/` runs the library on concrete values.

## Design notes

- The in-process probe cache (`probe::ProbeCache`) keeps its entries in a
  `Vec` whose keys are pairwise distinct, an invariant that every method
  keeps. A `HashMap` keyed by `String` gave no provable facts about its
  contents, so the cache is a list with that invariant instead.
- Looking up the definitions of many methods runs one analyzer session per
  method on threads of `app/`; combining their outcomes (methods in order,
  each definition kept, else the first error) is `query::collect_definitions`.
- The daemon's idle timeout is decided by `daemon::is_expired` and
  `daemon::sessions_to_evict`; the clock is read in `app/`.
- Documentation is highlighted by `display::highlight_doc`, which splits a
  text into prose, fences and Rust blocks and hands each block to syntect.
