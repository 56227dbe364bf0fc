# plan_monitor

The decision core of a desktop monitor for coding-plan quotas, written and verified in Verus.

- `src/`: the verified library. `providers` holds the monitored web consoles, `connect` and
  `events` what happens to their windows, `overlay`, `window` and `tray` the windows of the
  application, `macos_tray` the tray title, and `windows_taskbar` the widget beside the
  notification area of the Windows taskbar. `json` reads and writes documents through
  `serde_json`; `text` and `geometry` are about characters and coordinates.
- `tests/`: tests of the library.
- `app/`: the application around it, on Tauri. It makes the windows, passes the events on, and
  calls the Windows interface.
  Besides the crates of `Cargo.toml` it needs `tauri` 2 with its tray icon, and its plugins
  `tauri-plugin-shell` and `tauri-plugin-single-instance`.
