# mergequeue

A local, daemon-free merge queue: finished worktrees are queued, rebased onto
their repository's default branch behind a CI gate (lint, test, build), and
fast-forwarded in one at a time; a conflict is handed to a coding agent in a
tmux window.

## Layout

- `src/` — the verified library (Verus). The queue's state machine, the
  worker's decisions, the store's row mappings and statements, the hand-off,
  the shutdown token, the command-line decisions and the readers of git's and
  tmux's answers, each with its contract. Laws that span several functions
  are public proof functions (`lemma_*`).
- `app/` — the program around it: argument parsing, processes, SQLite, the
  worker threads and the agent.
- `tests/` — tests of the library on concrete values.
