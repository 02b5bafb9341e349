# selector4nix

A Nix substituter proxy: it queries all configured substituters for a
`.narinfo` at once, serves the answer of the substituter preferred once each
one's latency is weighed against its priority, streams nar files from where
they were found, and keeps substituters that fail out of the way, retrying
them with exponential back-off.

## Layout

- `src/` is the library, verified with Verus.
  - `domain/substituter/`: URLs, priorities, the configured facts of a
    substituter, and the availability state machine with its laws (a failure
    is announced once, back-off doubles up to a cap, recovery after a retry).
  - `domain/nar_info/`: narinfo texts and how their URL field is served,
    store path hashes, nar file names, the resolution of a narinfo and its
    expiry, and `resolution.rs`: the round of parallel queries, which keeps
    the most preferred answer and prunes a query once it can no longer win.
  - `domain/nar_file/`: nar file keys and locations, and where a nar file is
    streamed from: its known location first, then every available
    substituter.
  - `application/`, `api.rs`, `cli.rs`, `cache_kv.rs`, `actor.rs`: the
    decisions of the request handlers and actors, errors, the cache info
    body, and the rules of the expiring key-value cache.
  - `text.rs`: the text functions the narinfo handling is built on.
- `tests/`: tests of the library.
- `app/`: the program: command line, logging, the TOML configuration, the
  HTTP server, the HTTP requests to substituters, the expiring store on redb
  that keeps narinfos and nar file locations (in `$CACHE_DIRECTORY/main.redb`,
  or in memory), and the loops that run the library's state machines.
