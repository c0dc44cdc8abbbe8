# polyphony_tui

The terminal chat interface of Polyphony: a conversation view with collapsible
tool output, an input panel with history, a slash-command menu, a command
palette, a theme picker and an animated loader.

The logic is a verified Verus library:

- `src/app.rs` holds the interface state and its model (`AppModel`), and
  `handle_event` / `App::tick`, each proved to follow the model's step
  functions exactly. The model keeps the loader as an opaque value: a theme
  change and a tick move it to named states (`loader_with_theme`,
  `loader_ticked`), and every other step leaves it as it was.
- `src/laws.rs` proves what holds across events: the state stays well formed,
  a theme preview is undone by Esc, history recall, scrolling, the `Ctrl+X`
  chord, the slash menu and the loader countdown.
- `src/height_laws.rs` proves how rows add up over lines and shrink with the
  width.
- `src/messages.rs`, `src/viewport.rs`, `src/blocks.rs`, `src/frame.rs`,
  `src/palette.rs` and `src/menus.rs` compute block heights, the placement of
  blocks in the scrolled view, the screen's regions and where each menu row is
  drawn, with laws that clicks hit what is drawn.
- `src/commands.rs`, `src/theme.rs`, `src/loader.rs`, `src/text.rs` hold the
  command tables and their filters, the color themes, the loader's theme list
  and the few string operations taken from std.

`app/` is the terminal program around the library: it reads events with
crossterm, converts them, hands them to `handle_event`, and draws each frame
with ratatui from the layouts the library computes.
