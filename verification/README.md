# gxandria

Sorts the games of a Heroic Game Launcher library into custom categories,
one per genre, with metadata from IGDB and a local SQLite cache.

- `src/` is the library, verified with Verus: title sanitising, the search
  steps (store first, then IGDB, closest title by edit distance), the progress
  count, the custom categories and their place in Heroic's `config.json`, the
  SQLite row conversions and the IGDB request texts and genre-cache keys.
  Calls into `serde_json`, `regex`, `strsim` and `shellexpand` stand behind
  trusted wrappers whose contracts are written next to them.
- `app/` is the program: environment, files, HTTP, SQLite and the async loops
  that run the library's steps.
- `tests/` runs the library against the real outside crates.
