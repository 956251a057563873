# pw_eq_imgui

A Dear ImGui front end for a PipeWire equalizer, with its decisions proved by Verus.

- `src/` is the verified library: the filter window's bypass and pending PipeWire updates
  (`filter`), path display and expansion (`paths`), the save/load window (`save_load`), the
  tray icon's tool tip and menu (`tray`), the command line (`args`), what the application
  knows of the PipeWire graph (`pipewire`), the window/redraw/tray state machine
  (`app_state`), name truncation (`text`), and the properties that span these (`laws`).
- `app/` is the program: the event loop, OpenGL, ImGui drawing, the PipeWire thread and the
  tray service, which perform what the library decides.
- `tests/` runs the library on concrete values.
