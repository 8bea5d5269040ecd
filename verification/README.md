# Rockchip Universal Imager

A desktop tool that connects to Rockchip SoCs over USB (maskrom or loader
mode) and drives the external `rkdeveloptool`: download the SPL loader,
flash or back up an image, erase, and report the storage targets.

- `src/` is the verified library (Verus). It holds the device tables, the
  storage-target rules, the parsers for `rkdeveloptool` output and for GPT
  sectors, the session-log bookkeeping, path resolution, and every
  operation as a state machine (`ops`) whose steps are proved against
  their specifications. The trusted items are few and small: the `regex`
  crate is called through `progress::first_captures`; std's
  `str::to_lowercase` through `rkdev::to_lowercase` and `Path::extension`
  through `device::path_extension`; and `String::push` has an
  `assume_specification` in `text`.
- `tests/` runs the library on concrete values.
- `app/` is the Tauri host: commands, dialogs, files, processes, USB
  monitoring. It performs the actions the state machines ask for and feeds
  the results back.
