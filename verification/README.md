# graph — verified load management

The load manager of a GraphQL query node, verified with Verus, and the
values of the indexing status API.

- `src/clock.rs` — points in time and spans, in nanoseconds; a monotonic clock.
- `src/stats.rs` — moving statistics over a time window, kept in bins.
- `src/effort.rs` — the effort spent per query shape and in total.
- `src/load.rs` — the overload state, the decisions about queries, and the
  number of query permits.
- `src/value.rs` — GraphQL values, and numbers and hashes as text.
- `src/status.rs` — what the status API reports, and its values.
- `app/` — environment settings, locks, metrics and logging, the
  floating-point kill rate and its random draw, task spawning, and the
  component traits.
