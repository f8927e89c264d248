# botifactory

A server that stores and hands out release binaries of bots. A project has
release channels; a channel has versioned releases, each stored as a file
under `<release_path>/<project>/<channel>/<project>v<version>` together with
the SHA-256 fingerprint of its contents.

Layout:

- `src/` — the verified library (Verus): settings and environments
  (`configuration`), Unix path handling (`paths`), fingerprints (`digest`),
  decimal and case helpers (`text`), the listening address (`startup`), and in
  `routes` the decision function of every request handler together with the
  API's errors.
- `app/` — the server itself: configuration loading, the SQLite pool, the
  `axum` routes and handlers. Each handler performs the work its decision
  function asks for (queries, directory creation, file moves and reads) and
  answers with what the function decides.
- `tests/` — tests of the library on concrete values.
