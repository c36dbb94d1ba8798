# shotmd

A screenshot tool for Markdown: drag a rectangle over a full-screen snapshot
of the monitor; the rectangle is saved as PNG and JPEG in the downloads
directory and put on the clipboard as an HTML `img` element with the PNG
inlined in base64. With `r` a recording dialog opens: the next selection is
recorded for the chosen number of seconds and saved as an animated WebP.
A right click leaves without saving anything.

Layout:

- `src/` — the verified library (Verus):
  - `ui.rs` — monitors, selections, and the selection screen's state machine;
  - `shotapp.rs` — the state of the windowed variant of the tool;
  - `bytes_loader.rs` — serving the snapshot's PNG to the image widget;
  - `commands/` — cropping and encoding a capture, encoding a recording,
    stamping recorded frames;
  - `imaging.rs`, `webp.rs`, `text.rs`, `shared.rs` — the calls into the
    `image`, `webp_animation` and `base64` crates and std, each behind a
    trusted wrapper with its contract, and the text the tool writes.
- `app/` — the program: windowing (`eframe`/`egui`/`winit`), screen capture
  (`xcap`), files, clipboard, threads, and the floating-point mapping from
  screen points to pixels.
- `tests/` — tests of the library on concrete values.

The program in `app/` also calls the screen-capture crate `xcap`, which
`Cargo.toml` does not list; add it to build the program.
