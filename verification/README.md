# hw-monitor-alignment

A Windows tool that lines up the vertical positions of several monitors: it
opens a fullscreen overlay on every monitor that draws alignment lines at the
height of the primary monitor's centre, and lets the user nudge each
non-primary monitor up or down with the arrow and page keys.

- `src/` is the verified library: the monitor model and its ordering, the
  alignment session (moves, rollback, stop), the overlay drawing plan, the
  overview and information panel contents, the friendly-name mapping, the
  decoding of display-enumeration results, window-style and resize
  arithmetic, and the main window's message handling. Each public function
  carries a contract that Verus proves; the `law_*` proof functions state the
  properties that hold across calls.
- `app/` is the Win32 / WinUI program around it: enumeration of displays,
  window creation and painting, and the user interface.
- `tests/` runs the library on concrete values.
