# cliban_tui

The terminal board of cliban as a Verus-verified library, with a thin host.

- `src/` — the verified library. `model` holds the board's state; `update`,
  `overlays` and `pages` are the state machine every action drives;
  `keybinds` maps keys and mouse gestures to actions; `input` parses raw
  terminal bytes into keys; `buffers` reads and writes the `$EDITOR`
  buffers; `rows` and `sorting` filter and order the pages' lists;
  `display`, `views` and `page_views` decide what the screens say; `data` rolls up the
  rows the store returns; `runtime` holds the host loop's decisions.
  Laws that span several functions are public proof functions, most of
  them in `laws` and `buffer_laws`.
- `tests/` — the test suite, run against the compiled library.
- `app/` — the host: crossterm input, local and SSH sessions, the ratatui
  renderer and palette, the tenant picker, and the event loop over a
  `Store` that the board's storage implements.
