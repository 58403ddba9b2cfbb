# peregrine

The core of Peregrine, a desktop overlay that draws visual anchors
(crosshairs, frames, edge arrows, material layers) over a game window to ease
motion sickness, written in Verus with its behaviour stated as contracts and
proved.

## Layout

- `src/` — the verified library:
  - configuration model and validation (`schema`, `crosshair`, `layer`,
    `settings`, `config`, `error`), the legacy-to-layer migration
    (`migration`, `storage`), change broadcast over a `tokio` watch channel
    (`notifier`: what is handed to the channel is stated; delivery to
    subscribers is tokio's and not proved here) and the debounce of the
    hot-reload loop (`watcher`);
  - the material runtime's deterministic parts: script loading (`script`),
    metadata, parameter merge,
    element validation, SVG path grammar, registry, frame fingerprints
    (`material`, `element`, `svg_path`, `registry`, `fingerprint`,
    `material_error`, `key_state`, `rng`);
  - overlay decisions: frame plans, the overlay thread's state machine,
    window following, tray menu, overlay images, the event loop of the
    standalone desktop program (`overlay_plan`, `overlay_loop`, `window`,
    `tray`, `png_image`, `desktop_shell`), commands and preferences
    (`commands`, `locale`, `ui_labels`, `updates`);
  - telemetry text and records (`telemetry`, `report_event`, `reporting`,
    `pending`, `report_code`, `telemetry_off`, `dsn`).
- `tests/` — tests of the library on concrete values.
- `app/` — a command-line front end: file and directory I/O, the script
  engine boundary, binary32 geometry and rasterisation, the hot-reload loop.

Run the verifier on `src/lib.rs`; build `app/` against the library.
