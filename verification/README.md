# clear-view

A screen magnifier with a screen reader for Windows.

- `src/` is the verified library: the settings and the panel that changes them,
  the capture of a monitor, the overlay window with its docked panel, the hotkey,
  and what the screen reader speaks. It makes no system calls. Its functions say
  what to do next and are told what came of it.
- `app/` is the program. It owns the windows, the graphics devices and the
  threads, performs what the library decides, and does the floating point
  arithmetic of the moving picture.
- `tests/` runs the library on concrete values.

The magnification is kept in tenths and the follow speed in hundredths: these are
the steps of the sliders that set them.
