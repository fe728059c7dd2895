# nanocolor

Terminal color and text styling with ANSI SGR codes, verified with Verus.

- `src/` is the verified library: colors and styles with their SGR codes, styled
  strings and the exact text they render to, the chainable `Colorize` trait, the
  color settings (enable/disable, the test override, auto-detection) and the laws
  that relate them (`src/laws.rs`).
- `app/` holds the process-wide state around it: the global settings behind a lock,
  terminal detection through the C library, and `Display` for styled strings.
- `tests/` runs the library on concrete values.
