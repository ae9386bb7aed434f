# start_page

The core of a terminal-and-browser start page, written in Verus.

`src/` is the verified library:

- `state` — `AppState`, `Intent`, `Effect` and `reduce`, the synchronous state machine
  behind the prompt: typing filters the links, `Tab` accepts the inline suggestion,
  `Up`/`Down` move a wrapping selection, `Enter` runs a command, opens links or searches.
  `StateView::step` and `effects_of` are its specification.
- `key` — the host-independent `Key`/`Modifiers` and `key_to_intent`.
- `tui_host`, `web_host` — the terminal's and the browser's key events as plain values,
  their mapping to `Key`, and one turn of each host's event handling.
- `theme` — `Color` with its `#rrggbb` notation, and `Theme`.
- `links` — links, sections, search engines, percent-encoded search URLs.
- `config` — the config schema, its defaults, and the meaning of an Excalith `settings.json`.
- `server` — the daemon's bind policy.
- `assets` — which bundle files get a brotli-compressed sibling, and its contents.
- `laws` — properties across calls, proved.

`app/` is the program around it: argument parsing, YAML/JSON files, the crossterm event loop,
and the HTTP server.
