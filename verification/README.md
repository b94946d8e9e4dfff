# Usage deck core

A verified library (Verus) for a companion app that keeps the rolling
session and weekly usage limits of a coding assistant visible on a small USB
stream controller (AJAZZ AKP03 family and Mirabox N3 units).

- `src/` — the verified library:
  - `device`: supported VID/PID table, names, protocol versions, image
    formats, discovery filtering and raw button-input decoding;
  - `config`: button assignments, refresh-interval floor and defaults;
  - `deck`: which buttons may be assigned, which get painted or blanked,
    the tray text, startup connection pacing, the poller's reaction to
    failures;
  - `usage`: poll errors, response classification, the token-caching poll
    machine;
  - `render`: gauge colours by severity;
  - `budget`: the start-of-day bookkeeping of the daily soft budget;
  - `text`: character-wise string comparison and decimal text.
- `app/` — ordinary Rust around it: config files, HTTP polling, HID I/O,
  image drawing (floating point), and the background tasks.
- `tests/` — tests of the library.
