# nuc_fan

Fan control for NUC X15 style laptops, split in two:

* `src/` — the verified library: configuration normalization (`config`), fan curves
  (`fan_curve`), duty ramping (`ramp`), the decisions of one control step, the automatic
  Office/Gaming switch and the temperature alerts (`control`), output encodings and small
  helpers (`output`, `parse`, `text`, `num`), the built-in mode profiles (`mode_profiles`), the profile list (`profiles`),
  the configuration types (`models`) and the constants (`constants`).
* `app/` — the desktop program around it: the Tauri commands, reading and writing the
  configuration files, the sensor and fan access, the floating-point smoothing of readings
  and targets, threads, tray and updater.

Each control step runs as: read the sensors, `readings_valid`, `update_dynamic_mode`,
`process_alerts`, smooth the temperatures, `plan_control_step`; for a `Smooth` plan, smooth
the targets and `plan_ramp_step`; then write what the plan says.
