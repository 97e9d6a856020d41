# unchartable

The rules of the UNCHARTABLE chart manager for UNBEATABLE, verified with Verus.

`src/` is the library. Every function in it carries a contract that Verus proves:

- `names`, `paths`, `placement`: Windows-safe folder names, archive path checks and
  choosing a free folder name.
- `archive`: archive signatures, screening imports and the admission of each archive
  entry (paths, programs, nested archives, entry and size limits).
- `chart`, `matching`: reading chart texts and deciding when a manual chart is a
  catalog chart or an already installed one.
- `library`, `records`, `catalog`, `pack`: chart listings, operation history, trash
  and kept versions, update checks, catalog queries and pack export.
- `ids`, `links`, `digest`: chart ids and temporary names, the links the app opens or
  downloads from, and download progress with its SHA-256.
- `install`, `replace`, `rollback`, `adopt`: the step-by-step decisions of installing a chart
  (the checks in order, and cleanup on failure), of moving it over an installed one
  (set aside first, put back if the move fails), of restoring a kept version and of
  adopting a chart installed by hand. The
  app performs each action they ask for and reports the outcome.

Calls into `uuid`, `url` and `sha2` stand behind small trusted wrappers whose
contracts say what those crates do.

`app/` is the Tauri shell: windows, commands, disk and network work around the
library. `tests/` runs the library on concrete cases.
