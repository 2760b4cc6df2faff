# manga_reader

The rules of a terminal manga reader, proved with Verus.

- `src/string_set.rs`, `src/string_map.rs`: sets and maps keyed by strings,
  kept as lists without repeated keys.
- `src/config.rs`: the persisted configuration (chapters read, settings,
  unknown keys kept), its defaults, and what loading and saving amount to:
  a file that cannot be understood gives a read-only configuration that is
  never written back.
- `src/text.rs`: name display, decimal writing, infix search, leading icons.
- `src/palette.rs`: colours, themes, progress bars.
- `src/view.rs`: what each part of the screen shows.
- `src/layout.rs`: the centred popup area, cut with ratatui's layout.
- `app/`: the file work, the JSON encoding and the ratatui drawing.
