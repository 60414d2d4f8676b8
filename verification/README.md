# codex-relay

`codex-relay` bridges ChatGPT remote control to an unmodified Codex app-server
subprocess.

```console
codex-relay login
codex-relay remote-control pair
codex-relay remote-control start
```

`--relay-home` (or `CODEX_RELAY_HOME`) selects the home of the relay's ChatGPT
credentials; `--codex-home` selects the home of the child app-server, with the
installation identity and the enrollment state. Both default to the regular
Codex home: `CODEX_HOME`, or `~/.codex`.

## Layout

- `src/` holds what the relay decides, verified by Verus. Where deciding and
  doing alternate, a function takes an event and says what to do next, and its
  contract says which: `login`, `relay` (one run), `child` (the start of the
  app-server), `bridge` (all remote clients), `connection` (one of them),
  `pairing` (the watch over a pairing code). `message` and `json` read what the
  child sends; `cli` and `command_line` read the command line; `homes`,
  `installation` and `diagnostics` make the smaller choices; `text` has the numerals and the
  trimming. Functions whose names begin with `law_` state what holds of the relay
  as a whole.
- `app/` does what is decided: files, processes, sockets, the clock, and the
  Codex crates for login, state and remote control.
- `tests/` runs the library.
