# yazelix_zellij_pane_orchestrator

Decision logic of a Zellij plugin that orchestrates the panes of a tab:
which pane gets focus, which swap layout to step to, how AI activity facts
are recorded per tab and reduced to a tab state, which workspace each tab
works in, and how status-bar pipe payloads are framed. Every decision is a
verified Verus function with a contract.

Layout:

- `src/` — the verified library. Each module states its contracts over
  `Seq`, `Map` and spec functions; laws that relate several functions are
  public proof functions (`law_*`).
- `tests/` — executable tests of the library on concrete values.
- `app/` — the plugin itself: Zellij events, pipe messages and serde forms
  of the library's types, handing plain values to the library and carrying
  out what it decides.
