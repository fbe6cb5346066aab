# Happy Cappy

A desktop companion pet for macOS: a capybara that idles, blinks, walks,
naps, reacts to hover, can be dragged around, and shows notifications sent
to it with `happy-cappy notify`.

## Layout

- `src/` is the verified library (Verus). It holds the pet's behaviour and
  everything it decides on plain values:
  - `pet/`: the manifest format and its validation (`manifest`), the sorted
    animation table (`table`), animation fallback resolution (`resolver`), the
    pet catalog (`catalog`) and the behaviour engine (`engine`), a state
    machine over states, animations, clocks and notifications whose laws are
    proved as public proof functions;
  - `notification`: notification events, presets, clamping and the wire
    line's bounds; `bubble`, `micro_action`, `schedule`, `interaction`;
  - `pixels`, `sprite`, `renderer`, `preview`: RGBA buffers, sprite sheets,
    blitting with alpha blending, picker previews;
  - `picker_entries`, `menu_bar`, `settings`, `bundle`, `window_macos`: the
    text, tags and paths the user interface shows or uses.
- `app/` is the program around it: the event loop, windows and menus
  (AppKit through `objc2`), the control socket, settings on disk, and the
  floating-point geometry and motion.
- `tests/` exercises the library with concrete values.
