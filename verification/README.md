# sidex_extensions

Marketplace client logic for SideX extensions, verified with Verus.

- `src/` — the verified library:
  - `text` — decimal formatting, trailing-slash trimming, joining.
  - `metadata` — extension metadata records and version lookup.
  - `cache` — the in-memory metadata cache.
  - `marketplace` — request construction, cache freshness, install planning.
  - `download` — the retry policy for package downloads, as a state machine.
  - `installer` — the install decision that follows package validation.
- `app/` — HTTP (reqwest), JSON (serde), locking (tokio) and disk access
  around the library.
- `tests/` — tests of the library.
