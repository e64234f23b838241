# rustshot

A screenshot tool for X11: capture a screen, drag out a region over a dimmed
copy of it, annotate it (pencil, arrow, rectangle, ellipse, pixelating blur,
numbered markers), then save it as PNG or copy it to the clipboard. A D-Bus
service and a tray icon start captures.

## Layout

- `src/` is the library, verified with Verus. It holds the logic:
  - `canvas/`: geometry, annotations, the undo/redo history, and blur baking.
  - `raster.rs`: RGBA images as byte sequences, with crop and paste.
  - `capture.rs`: screen choice, pixel-format conversion, cursor compositing.
  - `config.rs`: defaults, colour, tool and palette parsing, and save paths
    (strftime file names through chrono).
  - `dbus.rs`, `tray.rs`: request handling and the tray state machine.
  - `ui/overlay/`: the overlay's state machine. It covers what each press,
    motion, release and key does, the routing of window events (`events.rs`),
    selection handles, the tool strip and painting helpers.
- `app/` is the program around it: the X11 window and event loop, screen
  capture, rendering with tiny-skia, the D-Bus service, the tray, the
  clipboard and file output, and reading the TOML configuration. Each decision
  it needs is a call into the library.
- `tests/` runs the library on concrete values.

## Configuration

`~/.config/rustshot/config.toml` holds:

- A `[defaults]` table with `color`, `width`, `counter_radius`,
  `pixelate_block`, `initial_tool`, `save_dir` and `filename_pattern`.
  `filename_pattern` is a strftime pattern, applied to the local time.
- A `[capture]` table with `include_cursor`.
- A `[palette]` table with `colors`.

Blur is pixelation with square cells of `pixelate_block` pixels; there is
no `blur_sigma` key. With no `initial_tool` set, the rectangle tool is
armed when the overlay opens.

In the overlay, the mouse wheel steps the annotation color through the
palette, and Control plus the wheel changes the stroke width (1 to 20).
