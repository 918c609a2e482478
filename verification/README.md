# keyboard-rs

Keypad macros for a 4x3 matrix keypad: the keypad sends `PRESS:<key>` /
`HOLD:<key>` lines over serial, and a daemon runs the shell command that the
selected profile maps to the key.

- `src/` is the verified library (Verus): the configuration model and its
  normalization and legacy migration (`types`), the properties of those rules
  (`laws`), serial line parsing and port choice (`serial`), the Ctrl+Alt+I
  hotkey (`hotkey`), the configurator's editing operations and the tray
  labels (`configurator`), the built-in key bindings (`linux`, `windows`,
  `key_actions`), the tray icon (`icon`) and string helpers (`text`).
- `app/` is the program around it: file and serial I/O, the JSON schema
  (serde), the tray (ksni), the keyboard hook (rdev), signals and the GTK
  configurator (run as `keyboard-rs-config` or with the argument `config`).
- `tests/` runs the library on concrete values.
