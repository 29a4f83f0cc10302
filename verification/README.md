# cast_ui

The behaviour of Cast, a themeable component kit for egui, with its
contracts proved by Verus: what each component is configured with, how it
reacts to clicks and keys, the calendar arithmetic of its date picker, the
markdown blocks it renders, the filters and paging of the gallery's lead
table, its command palette and shell navigation, and the selection rules of
the font installer.

Layout:

- `src/` — the verified library.
  - `foundation` — size, intent, variant, orientation, placement, theme mode.
  - `text` — Unicode white space, trimming, ASCII case, substring search,
    decimal rendering.
  - `calendar`, `navigation`, `markdown` — date picker, tabs / pagination /
    sidebar, markdown blocks (events from pulldown-cmark).
  - `components` — one module per widget.
  - `gallery` — command palette, lead table and filters, shell routes and
    the application's state changes.
  - `font` — argument reading and file selection of the font installer.
- `tests/` — tests run against the compiled library.
- `app/` — the font installer's command line and network and file access,
  and the floating-point colour and layout helpers.
