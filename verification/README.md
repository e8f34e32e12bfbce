# windows_multitool

A Windows tray utility that toggles the desktop icons on a double click on
the desktop and hides the mouse cursor after a period of inactivity, with a
JSON settings file shared with a separate settings window.

- `src/` is the verified library: the settings model and the settings
  load/save procedures (`config`), the cursor hider's state machine
  (`cursor_hider`), the desktop double-click detector and the search for the
  desktop's icon list (`desktop`), and the tray window's message dispatch,
  tray menu and start-up registration decisions (`tray`).
- `app/` is the Windows program around it: Win32 calls, the registry, files,
  JSON (serde), the hider thread and the message loop. It performs the
  actions that the library decides.
- `tests/` exercises the library on concrete values.
