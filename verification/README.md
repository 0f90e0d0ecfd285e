# register_spf_api

The back end of a service where users share fonts in the `.spf` format,
comment on them and keep snippets.

- `src/` is the library, verified with Verus: the validation of every input,
  the rate limiter and its tiers, token generation, hashing and matching, the
  authentication cache, how a request's identity is resolved, ownership rules,
  upload checks, and how errors become HTTP answers. Calls into outside crates
  (profanity filter, grapheme counting, Argon2, the disposable-mail list, the
  concurrent map) stand behind small trusted wrappers; their contracts are
  believed, not proved, and each says in its doc comment what it leaves
  unstated. Where an outside answer can change between calls (the mail
  checker's list can be extended at run time), the library takes that answer
  as an argument and decides on every value of it.
- The `.spf` decoder panics on some malformed files, and which ones cannot be
  said without the whole decoder; it is therefore called by `app/`, and the
  library decides on its outcome.
- `tests/` runs the library on concrete values.
- `app/` is the HTTP server around it (axum, the database, the object store);
  it performs I/O and asks the library for every decision.
