# rhino_player

The decision logic of the Rhino Player window (a GTK 4 / libadwaita video player over mpv),
written in Verus and proved against its contracts.

- `src/` — the verified library. Each module takes plain values read from the widgets and the
  playback engine (times in milliseconds, volumes in thousandths of a percent, paths as text) and
  returns what the window should do:
  - `keys`, `window_input`, `media_keys` — keyboard and media-key routing;
  - `fullscreen`, `chrome` — fullscreen / maximize rules, bar reveal, the theater cursor;
  - `transport`, `volume`, `seek`, `playback` — the bottom bar, seeking, play / pause;
  - `load`, `eof`, `smooth`, `nav` — opening files, advancing at the end of a title, the
    Smooth 60 filter timing, Previous / Next;
  - `undo`, `actions`, `now_playing`, `paths`, `text` — the continue list's undo bar,
    application actions, Now Playing metadata, path and text helpers.
- `tests/` — tests of the library on concrete values.
- `app/` — the GTK wiring that reads widgets and the engine and applies the library's answers.
