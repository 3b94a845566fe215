# hello_bevy

A small Bevy application for compositing and streaming, split in two:

- `src/` is the verified library (Verus): the output-profile components,
  the application state and the rules that tie the system sets to it, the
  diagnostics switches (over Bevy's `DiagnosticsStore`), the keyboard
  settings and the rule that names the frame-rate overlay.
- `app/` is the Bevy program around it: window, plugins, systems, scenes,
  input bindings, and the copies of the library types that carry Bevy's
  derives.
- `tests/` runs the library on concrete values.
