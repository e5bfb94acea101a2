# claudemeter

ClaudeMeter is a tray monitor for AI subscription usage limits (the 5-hour
session, weekly and per-model caps). This crate is its verified core: the
decisions the monitor makes, written in Verus and proved against their
contracts.

## Layout

- `src/` — the verified library.
  - `config` — `config.json` values: defaults, validation (clamped polling
    interval, normalised thresholds, known themes, icon styles and
    languages), and when the file must be (re)loaded or written.
  - `i18n` — locales, translation tables with English fallback, durations.
  - `notifications`, `agent` — threshold alerts that fire once per crossing
    and re-arm when usage falls; AppleScript notifications; command-line
    flags; the downgrade estimate and the chart's reset markers; the status
    the agent publishes when a refresh starts, fails or succeeds.
  - `pace` — the weekly pace projection.
  - `tray`, `popup`, `widget`, `colors`, `theme` — icon colour, tooltip,
    popup layout and texts, palettes with user overrides.
  - `history` — chart series from bucketed averages, CSV lines.
  - `updater` — version comparison and the release check's decision.
  - `credentials` — the OAuth access token from the credentials file or a
    credential blob, in that order.
  - `clock`, `time` — reset countdowns and local reset targets.
  - `text`, `json`, `keyed`, `usage` — strings, JSON lookups, small keyed
    maps, and the unit of utilization.
- `tests/` — tests of the library.
- `app/` — the command-line agent: files, the history database, the
  network and desktop notifications.

Utilization is held as hundredths of a percent (`4550` is 45.50%), so every
comparison with a whole-percent threshold is exact.

Calls into `serde_json`, `chrono` and parts of `std` that Verus has no
specification for go through small trusted wrappers whose contracts name
what the call returns.
