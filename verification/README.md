# wsl_cam_bridge

A Windows tray program that serves a webcam to WSL2 (and any other HTTP
client) as an MJPEG stream, with a snapshot endpoint, a JSON status, a small
control API (pause, resolution) and a dashboard page. When no camera can be
opened it serves an animated test card instead.

- `src/` is the verified library (Verus): the test card and tray icon
  pictures, JPEG frames of the card and of camera frames, the decisions of the
  capture loop, request routing, every reply the server sends, the reading of
  the resolution request, MJPEG framing, the camera listing and the tray menu.
  JPEG encoding (`image`) and frame decoding (`nokhwa`) are reached through two
  trusted wrappers in `src/media.rs`.
- `app/` is the program around it: camera access, the HTTP server, the tray
  icon and its event loop, threads, and the frame rate (a float).
- `tests/` exercises the library on concrete values.
