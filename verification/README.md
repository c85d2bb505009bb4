# minimize_ytm

A tray utility for Windows. At start it hides the YouTube Music desktop
window, so that it leaves the screen and the taskbar, and puts an icon in
the notification area. A double click on that icon restores the window and
ends the program; Win + Y shows or hides the window in turn, and a toast
announces each new track.

- `src/` is the verified library (Verus): the choice of the YouTube Music
  window and media session, the target-window cache, the detection of track
  changes, the toast document, the icon file parser, the routing of window
  messages and the life cycle of the tray as a state machine.
- `app/` is the Windows program around it: it calls the Win32 and WinRT
  APIs through the `windows` crate, feeds their results to the library and
  performs the actions the library decides on.
- `tests/` exercises the library on concrete values.
