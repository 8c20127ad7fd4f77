# lineage_core

A local record keeper whose records, tags and automation results are tied
together by a hash-chained lineage ledger, with its rules proved by Verus.

- `src/` is the verified library:
  - `domain/`: records and their titles, tags and tag metadata, settings,
    automation rules and runs, the lineage chain, mutations and their revision
    rules, and the ports (traits) through which the use cases reach storage.
  - `features/`: the use cases (capturing a memo, running automation,
    applying mutations, checking the chain, completing tags, settings).
  - `infra/`: SHA-256, clocks and identifiers, the OS credential store, the
    Anthropic backend, the planning of SQLite writes and the schema checks
    done before a database is migrated.
  - `shell/`: what the desktop shell decides: where `agentos` is, how its exit
    is read, the scheduled task, the browser backend's title protocol, and
    where agent skills may be written.
  - `agentos.rs`: the decisions of the `agentos` command (batches, exit codes).
- `app/` is the `agentos` program: command line, SQLite through `rusqlite`,
  HTTP through `reqwest`, and the file and process work of the desktop shell.
- `tests/` runs the library on concrete values.

The outside crates are called from `src/` only through small trusted
wrappers whose contracts say what their documentation promises.

The Anthropic backend sends the model a rule names in its
`backend_config.model`. When a rule names none, `agentos` uses the model in
the `LINEAGE_ANTHROPIC_MODEL` environment variable; with neither, the run
fails with "no model specified" and is recorded as failed.
