# multitree

A command line tool for git worktrees: `add`, `list`, `track`, `remove` and `clean`, with
settings kept in `Config.toml`.

- `src/` is the library, verified with Verus. `text` handles characters, trimming and lines;
  `worktree` reads the output of `git worktree list --porcelain`; `config` holds the settings;
  `paths` works out where worktrees go; `multitree` holds the manager and its errors; `flows`
  holds each command as a machine that takes what the last step brought (a git result, an
  answer, a shown message) and says what to do next.
- `app/` is the program: it reads the settings file, parses the command line, and carries out
  what the machines ask for (running git and shells, printing, reading answers).
- `tests/` runs the library on concrete inputs.
