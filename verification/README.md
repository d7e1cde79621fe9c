# firezone_client

The decisions of a Firezone client, verified with Verus.

- `src/` is the verified library:
  - `dns_control::resolvers` picks the system resolvers out of what the network adapters report.
  - `dns_control::nrpt` builds the NRPT rule that sends every DNS query to Firezone.
  - `dns_control::commands` holds the commands that remove that rule and flush the DNS cache.
  - `session` holds the session handle and the supervisor's verdict on how a session ended.
- `app/` is the plain Rust around it: spawning and supervising the session task, reading the adapters, writing the registry and running the commands (Windows only).
- `tests/` runs the library on concrete values.

The session's event loop itself (tunnel construction, the portal connection)
is not part of this crate: it is built from Firezone's own workspace crates,
which are not available here, so `app::session::connect` takes it from its
caller as a future.
