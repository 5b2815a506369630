# ferrolite-app (verified core)

The Verus-verified core of the Ferrolite RAW editor's front end.

- `src/` — the library, verified by Verus:
  - `history` — bounded undo/redo with same-kind coalescing, and its laws;
  - `cache` — the two-tier warm-navigation cache (least-recently-used
    display eviction against a byte budget on both tiers' total, full tier
    bounded by count only, open image protected) and its laws;
  - `icon` — the app icon rendered to RGBA8 in exact integer geometry;
  - `shortcuts`, `modal`, `chrome` — routing of shortcuts, menus and window
    controls;
  - `thumbs` — the per-frame thumbnail upload budget with its FIFO backlog;
  - `coverage`, `lens`, `scope`, `registry`, `tabs`, `info`, `histogram`,
    `crop`, `curve`, `mask`, `viewer` — the decisions behind the Develop
    panels.
- `tests/` — tests run against the compiled library.
- `app/` — egui glue for the library's decisions and the floating-point
  helpers of the UI.
