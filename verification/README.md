# uniwifi

Cross-platform Wi-Fi: list adapters, scan, connect, disconnect and forget
networks through the operating system's own Wi-Fi service.

`src/` is the verified core. Everything that is decided, parsed or computed
stands there, with contracts that Verus proves:

- `types`, `flags`, `secret`, `error`, `connection` — the values callers see.
- `scan_rollup`, `ordering`, `assoc`, `search` — from raw observations to one
  entry per SSID, in a fixed order.
- `preflight` — when a connect attempt waits for a scan, and what it does then.
- `text`, `utf16`, `bssid`, `duration`, `formatting` — what the rest is built
  from.
- `platform::{linux, windows, android, ios, macos}` — what each system's
  answers mean and what is asked of it next.
- `platform::{mock, stub}` — backends without an operating system behind them.

`app/` talks to D-Bus, Win32, JNI and Objective-C, and hands what it read to
the core. `tests/` exercises the core through its public functions.
