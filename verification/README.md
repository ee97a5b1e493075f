# netrunner_cli

A network speed-test and diagnostics tool whose decision logic is a library
proved with Verus.

- `src/` is the verified library. It holds what the tool decides from plain
  values: how a measurement is rated (`modules::types`), how the logo and the
  intro border are laid out (`modules::logo`, `modules::intro`), how the
  statistics dashboard reacts to keys and buckets its data
  (`modules::stats_ui`), how the history store keys, selects and retires
  records (`modules::history`), the state of the live bandwidth graph
  (`modules::ui`), the simulated route trace and the diagnostics advice
  (`modules::diagnostics`), the rules of a speed-test run
  (`modules::speed_test`) and the reading of the command line (`cli`).
  Measurements are `f64` values in the tool; the library receives their bit
  patterns and compares them exactly (`float_bits`).
- `app/` is the program around it: argument parsing, the network transfers,
  the embedded database, terminal drawing and the floating-point arithmetic.
- `tests/` runs the library on concrete values.
