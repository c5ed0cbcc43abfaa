# sqlite-web-starter

A small web service that keeps a counter and a sample inventory in SQLite,
writes through a single writer task behind a bounded queue, waits for
Litestream replication before serving, and shuts down in order.

The decisions of the service are a Verus-verified library (`src/`):

- `database`: how a write is admitted and answered, readiness, and the single
  writer as a state machine (`WriterLoop`) that drains admitted commands on
  shutdown; `database::contention` classifies and tallies the lab's attempts.
- `startup`: configuration, log colors, how a task's end is judged, the first
  failure, and the application lifecycle (`Lifecycle`): open, prepare, serve,
  drain HTTP, drain the writer, close.
- `replication`: the Litestream startup barrier (`SyncBarrier`).
- `routes`: status codes and messages of the HTTP answers.
- `dashboard`: the page's HTML and the asset URLs and headers.
- `text`: decimal parsing and printing, trimming and hex, with the rules of
  the standard library.

`app/` is the process around it: tokio tasks, axum routes, sqlx queries and
the Litestream subprocess, each driven by the library's decisions. The
migrations are read from `migrations/` and the bundles from `dist/` at
startup.
