# pumpkin_core

A control panel for a Pumpkin Minecraft server: it keeps the server's
configuration file, starts and stops the server process, collects its output,
and shows all of it in a window.

- `src/` is the library, verified with Verus: the controller's state machine
  (`server/controller.rs`), the choice of the executable to download
  (`server/download.rs`), what becomes of the configuration file
  (`config/file.rs`), paths, error messages, and the state of the control
  panel with the text it shows (`ui/`). Proof functions named `law_*` state
  the properties that hold across calls.
- `app/` is the program around it: file and process I/O, the download, the
  worker threads, TOML (de)serialisation and the window.
- `tests/` runs the library on concrete values.
