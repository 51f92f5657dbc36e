# boi

A small, opinionated wrapper around [Borg](https://www.borgbackup.org/) backups, whose
decisions are proved correct with Verus.

- `src/` is the verified library: the configuration and its search path, the command lines
  given to Borg, the reading of Borg's JSON events and of `borg prune --dry-run` listings,
  the state of the progress lines, APFS snapshot handling, the upload command, and the
  bookkeeping of ignored signals. Each public function states what it returns in its
  contract; the properties that span several functions are public proof functions named
  `law_*`.
- `app/` is the `boi` command itself: argument parsing, processes, terminals, signals and
  files, all of which hand plain values to the library and carry out what it decides.
- `tests/` runs the library on concrete values.

Subcommands: `borg`, `check`, `completion`, `prune`, and `snapshot` (aliases `s`, `snap`).
