# dbkp

Backups of PostgreSQL and MySQL databases to a local directory or to S3, with
named workspaces that keep a database and a store together.

## Layout

- `src/` — the library, verified with Verus: command-line resolution, the
  workspace collection, backup naming and the time stamps read back from names,
  listing order and retention clean-up of a store, the state of store readers
  and writers, compression formats, the arguments and output checks of the
  PostgreSQL, MySQL and MariaDB client tools, version parsing, tool download
  catalogues, and the decisions of the SSH tunnel. Calls into flate2, chrono,
  uuid, getrandom, reqwest's URL parser, dirs, os_info and the system clock sit
  behind small trusted wrappers whose contracts say what the crates document.
- `app/` — the `dbkp` command: argument parsing, the workspace file, the store
  over opendal, the database pools and child processes, the SSH tunnel over
  ssh2, the guided mode.
- `tests/` — tests of the library on concrete values.
