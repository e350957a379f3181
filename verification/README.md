# perseus (verified core)

The logic of the Perseus web framework's core as a Verus library: every
function in `src/` carries a `requires`/`ensures` contract that Verus proves.

## Layout

- `src/state/` — the page state store (eviction order, keep list, widget
  dependencies, preloads) and its earlier form, frozen apps and thaw
  preferences, global state creation, delayed state, template state as JSON.
- `src/template/` — the render context (choosing active, frozen or server
  state, freezing and thawing), the states a template generates, the results
  of state generators, widget paths, and the decisions of rendering a widget
  at build time and at request time.
- `src/server/` — the HTML shell and its interpolations, error pages, page
  paths, and `render`: getting a page's state as a step function driven by
  the answers to the actions it asks for (store reads and writes, state
  generation, rendering, the clock), with the full global state likewise.
- `src/serve.rs` — matching a path to its template through the render
  configuration, and serving a page, again as a step function.
- `src/translator/` — the dummy, lightweight (JSON) and Fluent translators.
- `src/stores/` — asset paths of the immutable and mutable stores.
- `src/shell.rs`, `src/state/live_reload.rs` — the browser's decisions on
  fetched responses and on the live reload server's address.

Calls into `serde_json`, `urlencoding`, `chrono` and `fluent-bundle` stand
behind small trusted wrappers whose contracts say what the library relies on.

`app/` holds what Verus does not check: serde copies of the library's
types, filesystem stores on `tokio`, the loops that perform the actions the
step functions ask for, and the functions that panic.

`tests/` runs the library on concrete values.
