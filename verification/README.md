# aethershift

A keybinding-profile engine for the Hyprland compositor: a daemon keeps a
set of named profiles (overlays of key bindings over the compositor's own
bindings), switches between them with conflict arbitration, snaps windows
into layouts, counts usage, and answers a command-line client and a
terminal console over a Unix socket.

## Layout

- `src/` — the library, verified with Verus. Key combos and actions
  (`binding`), profiles (`profile`, `profile_metadata`, `presets`), the
  switch/restore planner and its conflict arbitration (`state`, `conflict`,
  `keyed`, `named`), window geometry (`layout`), statistics and
  recommendations (`stats`), health and the doctor report (`health`),
  plugin manifests and outcomes (`plugin`), the wire vocabulary
  (`protocol`), the compositor's Lua command texts and replies (`hypr`,
  `backend`), the daemon's state and its answer to every request
  (`daemon`, `requests`), the client's commands and printed reports
  (`cli`), and the console's state (`tui`). Laws that relate several
  operations are public proof functions named `law_*`.
- `tests/` — tests of the library.
- `app/` — the program around it: command-line parsing, the socket and
  its framing, JSON and TOML encodings, the compositor's sockets, plugin
  processes, notifications, the service loop and the terminal drawing.
