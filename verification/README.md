# split_pane

Layout, scrolling and stream planning for a terminal transcript that is shown either as one
combined column or, on terminals at least 120 columns wide, as a conversation pane beside an
activity pane. The logic is verified with Verus.

- `src/` is the verified library: `rect` (terminal rectangles), `layout` (pane widths and the
  stacking of header, content and composer), `scroll` (per-pane scroll offsets and wheel
  routing), `stream` (which cell lines a pane shows, in which order), `viewport` (the first row
  shown, from ratatui's wrapped row count), `surface` (where every part of a frame goes),
  `transcript` (the chat widget's transient cells and flex slots) and `frame` (the application
  state that drives a frame).
- `tests/` runs the library on concrete values.
- `app/` draws with ratatui and converts crossterm events; it holds no layout rule of its own.
