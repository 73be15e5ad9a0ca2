# netman

A keyboard-driven terminal client for NetworkManager. The decisions of the
program — reading and writing connection settings, merging scan and modem
data, ordering and grouping the connection list, the key bindings, the text
field editor, what each part of the screen shows — form a library verified
with Verus; a thin front end does the I/O.

## Layout

- `src/` — the verified library (crate `netman`)
  - `connection/` — domain types (connections, Wi-Fi, VPN, modems, states),
    editable profiles, merging of scan results and modem readings
  - `nm/` — NetworkManager settings as dictionaries (`dict`), reading and
    writing profiles (`connection_settings`), new Wi-Fi connections
    (`wifi_settings`), modem data (`modem`), list entries from settings
    (`client`), list order (`order`), numbers (`numbers`)
  - `vpn_plugins` — VPN plugin descriptors and `nmcli` import output
  - `app` — application state, list grouping, key handling
  - `ui/` — text input, list rows, status line, detail panel, overlay placement
  - `cli`, `config`, `settings` — options, configuration values and their
    resolution
  - `text` — character-level string helpers
- `app/` — the front end: command line (clap), configuration file (serde,
  toml), logging (tracing), D-Bus client (zbus), terminal and event loop
  (crossterm, ratatui, tokio)
- `tests/` — tests of the library

The laws that hold across functions are public proof functions, named
`lemma_*`, next to the functions they speak of.
