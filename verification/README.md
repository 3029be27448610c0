# bunode

A Node.js-compatible `node` command that runs programs on Bun, and `bunode`, a
manager that turns Node.js installations into Bun-backed ones and back.

- `src/` is the library, verified with Verus: the Node option parser and its
  translation into a Bun command line, `NODE_OPTIONS` and env-file handling, `data:`
  payload decoding, the help text, version reporting, path handling, and every
  decision of the prefix manager (`patch` as a state machine, the file steps of
  installing and reverting, the bookkeeping of `list`, `revert`, `implode` and
  `update`). Laws that span functions are public proof functions (`law_*`).
- `app/` holds the two programs around it: reading the environment and the file
  system, running Bun and npm, asking on the terminal, and writing files.
- `tests/` runs the library on concrete inputs.
