# SnapDrop

Capture a region of the screen on Windows and drag it into another program as a
file. This crate holds what SnapDrop decides and computes, written in Rust and
verified with Verus; the program around it lives in `app/`.

- `src/` is the library. Every function states in its contract what it returns
  or changes, and Verus proves it. Functions named `law_...` state properties
  that span several functions: that an area dragged about keeps its size, that a
  written shortcut is read back, that a drop list gives its names back.
- `tests/` runs the library on concrete values.
- `app/` is the program: files, windows, hotkeys, the capture and encoding
  interfaces of the system. It asks the library what to do, and hands it what
  came of it. What is measured in floating point stands there too.

The library takes PNG encoding, decoding and scaling from `image`, Base64 from
`base64` and the local time from `chrono`. What it believes of them is written in
the contracts of the functions that make the calls, in `src/encoding.rs` and
`src/filename.rs`.

| Module | What it holds |
| --- | --- |
| `overlay`, `scene`, `canvas` | the selection overlay: its states and its picture |
| `capture`, `monitors` | stitching a region from the monitors' frames |
| `capture_flow`, `editor`, `thumbnail`, `native_thumb` | from the selection to the thumbnail |
| `clipboard`, `dragdrop` | what other programs are handed |
| `video_recording`, `audio`, `toolbar` | recording a region |
| `settings`, `history`, `filename`, `encoding`, `text` | what is stored, and how |
| `hotkey`, `tray`, `commands`, `notifier`, `debuglog`, `lifecycle`, `ocr` | the rest of the program |
