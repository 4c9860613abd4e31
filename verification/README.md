# oxiclean

A cross-distribution Linux cleaner (package caches, orphans, AUR helpers,
Flatpak, Snap, the journal, trash, crash dumps, dev-tool caches, TRIM, Nix
garbage collection, self-update) whose decisions are verified with Verus.

## Layout

- `src/` — the verified library. Every cleaning operation is a state machine:
  `step` takes the answer to the previous request (`plan::Reply`) and returns
  the report lines to print and either the next request (`plan::Op`: run a
  command, measure or empty a directory, ask the user, …) or the bytes freed.
  Each machine's contract is its transition function, written as a spec
  function beside it (`pkg_next`, `orphans_next`, `journal_next`, …).
  - `detect`, `parse`, `paths`, `text`, `utils`: distro detection, parsers for
    tool output and config files, path rules (protected caches, Portage build
    tree), trusted command resolution and privilege-escalation plans.
  - `packages`, `system`, `bundles`, `usercache`, `clean`, `dev`: the
    operations.
  - `cli`, `session`: which operations a command line selects, the session
    plan, the report around it, and the JSON report.
  - `update`: the `--update` flow.
  - `laws`: properties proved over the machines and rules (dry runs change
    nothing, `--yes` never prompts, protected caches are never selected, `--all`
    never enables `--dev` or `--trim`, self-update never replaces a
    package-manager install, …).
- `app/` — the executable: command-line parsing, terminal output, and the
  loop that carries out each request against the real system.
- `tests/` — tests of the library on concrete values.
