# toolchanger_utils

Nozzle-offset calibration for tool-changing 3D printers running Klipper. A
camera looks up at the nozzle; the application locates it in each frame and
moves the printer until the nozzle sits over the image centre, for one tool,
for every tool in turn (to compute the tool offsets), or repeatedly (to measure
how well a tool change or a homing returns to the same spot).

## Layout

- `src/` is the library, verified with Verus:
  - `auto_offset.rs`: the automatic procedures as a state machine from a
    thresholded offset reading to the next printer steps, with laws on how the
    all-tools run and the repeatability tests progress and end.
  - `detection_window.rs`: the sliding window of recent detections.
  - `crosshair.rs`: the crosshair drawn over camera frames (midpoint circle).
  - `klipper.rs`: G-code commands, JSON-RPC request ids, the position cache.
  - `klipper_status.rs`: the printer flags kept up to date from status
    messages (read with `serde_json`).
  - `decimal.rs`, `vision_types.rs`, `preprocess.rs`, `ui_types.rs`,
    `ui_utils.rs`: text rendering, camera and pipeline types, small UI helpers.
- `app/` is the egui application around the library: windows, the websocket
  and HTTP links to the printer, the camera thread, OpenCV detection, and the
  floating-point parts (averaging, statistics, coordinate transforms).
- `tests/` exercises the library on concrete values.
