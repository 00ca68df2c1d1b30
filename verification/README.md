# linkshare

A link-sharing web service. The verified library (`src/`) holds the rules of
every route: how passwords are stored and checked, which requests need a
session, the filters and records sent to the link, grant and person stores,
and the reply chosen for each outcome, with laws about them (writes belong to
the session's user, keys of links stay unique, private links are never shown,
a signup's password lets the same user sign in). `app/` is the actix-web
server that reads the environment, talks to MongoDB and PostgreSQL, and hands
the library plain values.

- `src/routes/`: the mounted routes (`userdata`, `dataa`), their records
  (`utils`), replies and errors.
- `src/queries/`: the person table's requests, rows and replies.
- `src/dataa.rs`, `src/userdata.rs`: routes that keep everything in the
  document store (not mounted by the server).
- `src/codec.rs`, `src/kdf.rs`: base64, hexadecimal, PBKDF2 and random bytes,
  through the `base64`, `data-encoding` and `ring` crates.
- `src/configure.rs`, `src/config.rs`: settings and the listen address.
- `src/clock.rs`: the current UTC time as text, through `std::time` and `chrono`.
