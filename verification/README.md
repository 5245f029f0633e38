# email

An email library whose logic is verified with Verus: account discovery,
account configuration, OAuth 2.0 flows, backend composition, IMAP and
Maildir helpers, synchronization planning, id mapping and PGP keys.

Layout:

- `src/` — the verified library. Each module states its contracts over
  spec functions and views; the laws of the library are public proof
  functions next to the code they speak of (`law_*`).
  - `account/` — configuration and its defaults, OAuth 2.0 redirections
    and flows (as a state machine), PGP on top of the `pgp` crate, and
    the local cache used by synchronization.
  - `autoconfig/` — the Mozilla autoconfig model, the order in which
    discovery asks its sources (as a state machine), and the choice
    among DNS records.
  - `backend.rs` — feature sources, the builder, and the backend that
    answers a feature or the error that it is not available.
  - `imap.rs`, `maildir.rs` — page ranges, SASL responses, notifications,
    folder names and listings, envelope pages.
  - `notify.rs` — the notify daemon of an IMAP folder, as a state machine
    whose every state keeps the law of a whole run.
  - `sync.rs` — the synchronization of an account, as a state machine.
  - `id_mapper.rs` — the SQL table and statements of the id mapper.
  - `text.rs` — character-level string helpers with their specifications.
- `tests/` — tests run against the compiled library.
- `app/` — the I/O around the library: HTTP and DNS, IMAP sessions over
  TCP or TLS, the file system, SQLite, file locks, and the drivers of the
  state machines and of the notify daemon.
