# Dynamic Launcher

A strip of five tiles in an egui window: Halt (shut down after a question),
two tools, the web, and a clock that shows the time or the date while the
window title shows the other. On Windows the tools are the Magnifier's full
screen and lens modes, on Linux GNOME's Accessibility Zoom, on OpenBSD a
shell and `top` in a terminal.

- `src/` is the library, verified with Verus: each system's launcher state as
  a value, the steps a key press, click or finished command takes it through,
  and the outside work each step asks for (which zoom to start, which
  settings to write, which terminals to try, how to report a failed
  shutdown), with the laws they keep.
- `app/` is the program: it reads the keyboard, the clock and the system,
  draws the window with egui, and does the outside work.
- `tests/` runs the library on concrete values.
