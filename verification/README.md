# yas_scanner_genshin

The rules of a Genshin Impact artifact scanner and locker, verified with
Verus: how OCR readings of an artifact's detail panel are corrected against
a catalog of artifact sets and characters, how the inventory grid is walked
page by page, how lock plans are merged and applied, and how the results
are exported in the GOOD, Mingyu Lab and Mona formats.

## Layout

- `src/` — the verified library. Each public function states its result
  over a mathematical model (`Seq`, `Map`, exact decimals, spec functions);
  `src/properties.rs` holds the laws that relate several functions.
  - `catalog.rs`, `catalog_build.rs`: the artifact catalog, its validation,
    fuzzy matching of OCR text, and building it from genshin-db records.
  - `scan.rs`, `stat.rs`, `worker.rs`, `panel.rs`, `audit.rs`,
    `artifact.rs`: reading and correcting panel text (the reading of one
    panel as a state machine), stat values, collecting scan results.
  - `traversal.rs`, `scroll.rs`: the order in which the grid is visited and
    the scrolling decisions, as a state machine driven by the caller.
  - `lock_plan.rs`, `executor.rs`, `locker.rs`, `lock_exec.rs`,
    `lock_state.rs`: lock files, inventory counts, lock runs, the
    execution of a plan as a state machine (validation before changes,
    rollback after a failure), and lock-marker detection.
  - `export.rs`, `formats.rs`: export keys and records.
  - `game_info.rs`, `window_info.rs`: resolution families and window
    profiles.
- `tests/` — tests of the library on concrete values.
- `app/` — the program around the library: JSON and file I/O, catalog
  download, serde and clap types, pixel measurements in floating point,
  and the drivers that perform the actions the library decides on.
