# dnclip

A Linux desktop tool that plays a video in mpv, lets the user mark IN and OUT
points (or save several segments), and exports them as DNxHR `.mov` files with
ffmpeg, ready for DaVinci Resolve.

## Layout

- `src/` — the verified library (Verus). Times are whole milliseconds.
  - `decimal.rs`, `text.rs` — number rendering, joining, and their lemmas.
  - `timecode.rs` — `HH:MM:SS.mmm` and `S.mmm` texts, with read-back laws.
  - `types.rs` — profiles, export parameters, project, segments.
  - `paths.rs` — which dropped files open as video, output file names.
  - `export.rs` — the ffmpeg command line of one export job.
  - `mpv.rs` — mpv's command line, IPC requests, and the wait for its socket.
  - `embed.rs` — bookkeeping of the X11 child window mpv draws into.
  - `editor.rs` — the editing session: shortcuts, buttons, marks, segments,
    export planning and status lines.
- `app/` — the egui program around the library: window, mpv process and
  socket, ffmpeg process, Xlib calls.
- `tests/` — tests of the library.
