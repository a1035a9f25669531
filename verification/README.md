# kime frontend logic

The decisions of the kime Korean input method's frontends and daemon, as a
Verus library: each function states its behaviour in its contract and Verus
proves it.

- `src/` — the verified library (key repeat of the Wayland and XIM frontends,
  hotkey tables, profile switching, the daemon's decisions).
- `tests/` — tests on concrete values.
- `app/` — the programs around the library: the `kime` daemon, the `kime-xim`
  server handler and the loading of the engine configuration. They depend on
  the engine crates of the kime workspace.
