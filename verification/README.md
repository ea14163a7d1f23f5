# Black Rose Auth API

An authentication and group service for EVE Online alliances: users log in
with EVE's single sign-on, their characters and affiliations are recorded,
and groups admit members by filter rules or by application.

## Layout

- `src/` is the verified library (Verus). It holds the service's rules:
  which users pass a group's filters, the steps of joining and leaving a
  group, how applications are listed, changed, answered and withdrawn, how a
  login changes the ownership of characters (and why no user ends up with two
  main characters), how stored rows are joined into affiliations and filter
  sets, and how each request is answered.
  - `auth/data` holds the decisions behind the database work, `auth/route`
    those behind the HTTP answers, `auth/model` the request and response
    types, `entity` plain records of the stored rows, `eve` the EVE
    characters, corporations and alliances.
  - `text.rs`, `ids.rs` and `clock.rs` hold small verified helpers: reading
    numbers as `str::parse` does, sets of ids kept in vectors, and instants.
- `tests/` runs the library on concrete cases.
- `app/` is the server around the library: axum routes, sea-orm queries,
  Redis sessions, and EVE's API. It performs what the library decides.
