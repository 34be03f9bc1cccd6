# worktree-navigator

`wt`, a terminal navigator for git worktrees: a full-screen list of a repository's
worktrees with overlays to create, rename, sync, delete and set up worktrees, plus a
small command line (`wt clone`, `wt p`, `wt pr`, `wt gco`, `wt b`, `wt d`).

## Layout

- `src/` is the library, verified with Verus. It holds the navigator's state machine
  (`app`, `controller`, `picking`, `events`, `session`, `text_input`, `input`), the
  command-line grammar (`cli`), what git's and gh's output means (`git`,
  `pr_checkout`), the project registry and its ordering (`projects`, `order`,
  `store`), repository options (`config`) and release selection (`update`,
  `version`). Every public function states in its contract what it returns or how it
  changes the state; the proof functions (`lemma_*`) state the properties that span
  several calls, such as that no key, click or paste takes the state out of what the
  handlers expect, that registering a directory twice adds nothing, or that the
  delete flows never remove the default worktree.
- `app/` is the program around it: argument handling, the ratatui/crossterm loop,
  running git and gh, and reading and writing files. It hands the library plain
  values and carries out what the library leaves pending.
- `tests/` runs the library on concrete values.
