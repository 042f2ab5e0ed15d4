# zeus

zeus builds packages from the Arch User Repository (AUR) inside a
container, keeps the package repositories in a local database and can
install what it built.

The decisions zeus makes are a library proved correct with Verus; the
program around it does the input and output.

- `src/` — the library, every function with a contract:
  - `text` — string helpers (`trim`, line splitting, path joining);
  - `aur` — search kinds, packages, the expiring package cache and the AUR
    client's request planning and response handling;
  - `config` — option types, the per-operation options, and the rule that
    the command line overrides the configuration file, which overrides the
    defaults;
  - `log` — log levels and what a level shows;
  - `db` — transactions and the order of their commit, package path
    validation, and the `pacman`, `makepkg` and `git` command lines;
  - `builder` — what a sync or a removal asks of the builder and what it
    reports back;
  - `runtime` — the runtime driver interface, the rules for loading
    drivers, and the docker and script drivers' command lines;
  - `query`, `ipc`, `error` — query planning and notes, the builder
    messages, and error values.
- `app/` — the `zeus` program: the command line (clap), the configuration
  file, HTTP requests to the AUR, the database on disk, the socket to the
  builder and the runtime drivers.
- `tests/` — tests of the library.
