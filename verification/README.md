# raptor

The game rules of the lightcycle arcade, written in Verus and proved against
their contracts.

- `src/` — the verified library: the shared random generator (`rng`), the
  Tetris board (`tetris`), the main and pause menus (`menu`, `controls`), the
  palette and surface materials (`palette`), document glyph layout
  (`document`), city road markings (`city`), and what a ride's step outcomes,
  crashes and minigame ticks do to the run (`ride`). Public proof functions
  named `law_*` state the properties that hold across calls.
- `tests/` — the library's tests, run against the compiled crate.
- `app/` — floating-point glue the renderer and the audio thread need: unit
  draws, frame times in seconds, the music volume, colour channels and the
  flood wall's warning growl.

The only outside crate is `font8x8`, whose legacy 8x8 bitmaps the document
glyphs are drawn from.
