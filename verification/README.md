# macro_manager

Runs the script that a configuration binds to a SET and an ID for the
application whose window has the focus, falling back to the `default`
entries, and toggles long-running scripts on and off.

- `src/` is the verified library (Verus):
  - `config.rs`: the lookup of `config[executable][set][id]`, the fallback to
    `default`, and the macro that results.
  - `run.rs`: the decisions of a run (stop a toggled script or start one) and
    the pid file that records a started script.
  - `window.rs`: the focused window from GNOME's window list, and its process
    on X11.
  - `environment.rs`: the `MACRO_MANAGER_*` variables given to scripts.
  - `numtext.rs`, `paths.rs`, `text.rs`: decimal text, paths, text equality.
  - `toml_model.rs`, `json_model.rs`: the calls into `toml` and `serde_json`.
- `app/` is the program: command line, files, the X server, D-Bus, processes.
- `tests/` runs the library on concrete values.
