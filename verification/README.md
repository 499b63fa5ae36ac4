# mbtunnel

A desktop VPN client: it keeps the user's WireGuard keys in an encrypted
settings file, runs a local tunnel program (UDP or WebSocket) towards the
VPN server, brings up a WireGuard interface through it, and keeps its
helper programs up to date.

## Layout

- `src/` is the library, verified with Verus. Every function states its
  behaviour in `requires` / `ensures`:
  - `config_file` — the settings file: JSON, zstd-compressed, checksummed
    with xxh3 and encrypted with ChaCha20; reading back what was written
    gives the same document.
  - `tunnel` — the tunnel's state, its append-only log, the command that
    starts it and how its local port is found in its output.
  - `vpn` — what "Start VPN" and "Stop VPN" lead to.
  - `fetch` — reading the API's answers about keys and peer configuration.
  - `update`, `startup` — helper programs, download addresses, checksums,
    decoding downloads, the update loops and self-updates.
  - `dialog`, `display`, `app_config` — the settings model and the texts
    the window shows.
  - `validate`, `pathfinder`, `speedtest` — the Windows route finder's key
    check, network-adapter helpers and speed test; `elevation` — the
    command line that restarts the program as administrator.
  - `parse`, `text` — shared text handling.
- `app/` is the window and everything that talks to the system (files,
  processes, network, GUI). It performs the steps that the library
  decides on (the VPN panel, the tunnel state, the update loops, the
  dialogs, decoding downloads); what it decides itself is GUI layout,
  the zoom settings (floating point) and the timing of its network
  probes.
- `tests/` runs the library on concrete values.

Calls into other crates (chacha20, zstd, xxhash, sha2, regex, chrono,
serde_json, base64, x25519-dalek, defguard_wireguard_rs, getrandom,
owo-colors) go through small trusted wrappers whose contracts are
documented next to them.
