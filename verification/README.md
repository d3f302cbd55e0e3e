# testaustime

A coding-time tracking service. Editor extensions send heartbeats; the
service turns them into coding sessions, stores finished sessions as
activities, and reports per-language statistics, friends' activity and
private leaderboards.

## Layout

- `src/` — the library, verified with Verus. The service's decisions live
  here with their contracts: session handling from heartbeats
  (`activity`), statistics (`stats`), leaderboards, friendships, access to
  other users' data (`access`), accounts and passwords, password resets,
  secured-access tokens, per-client rate limiting, validation of names,
  emails and codes, and the errors with their HTTP statuses. Laws that
  relate several operations are stated as public proof functions next to
  the functions they speak of.
- `tests/` — tests of the library on concrete values.
- `app/` — the HTTP server around the library: configuration, routing,
  the PostgreSQL queries, the in-memory session and reset stores, rate
  limiting middleware and mail delivery. It hands the library plain values
  and acts on the answers. The rate limiting the server applies counts
  requests with `governor`; the library chooses the key each request is
  counted under, and its own per-client counter (`ratelimiter`) is kept for
  callers that want the counting itself verified.

The calls into outside crates that the library's decisions rest on
(`rand`, `regex`, `argon2`, `dashmap`, and `lettre`'s address and mailbox
parsing) stand behind small wrappers in `src/` whose doc comments say what
is assumed of them. Building and sending mail, the `governor` counters
(which read the clock and shared state) and the database stay in `app/`.

Times are nanoseconds: wall-clock instants as `i128` nanoseconds from the
epoch, monotonic readings as `u64` nanoseconds.
