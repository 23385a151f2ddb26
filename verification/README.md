# forest-server

A live-reloading development server for
[forester](https://git.sr.ht/~jonsterling/ocaml-forester) forests, written as
a Verus library with a thin program around it.

`forest watch -- "build --dev --root index trees"` watches the forest, runs
forester with those arguments whenever a tree changes and tells the browsers
that load `reload.js` to reload. `forest serve` builds once and serves the
output.

Layout:

- `src/` — the verified library: the watcher's decisions (`watch`), the
  command line (`cli`), the HTTP side (`server`), live-reload sessions
  (`reload`), the terminal interface's state and event loop decisions
  (`events`, `home`, `app_loop`), the terminal front end (`tui`, `forest`) and
  string utilities (`text`).
- `app/` — the `forest` program: argument parsing, logging, the terminal, the
  file watcher, the HTTP server and the forester process.
- `tests/` — tests of the library.
