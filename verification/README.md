# mywm

A tiling Wayland compositor whose decisions are verified with Verus.

`src/` is the library. It keeps the state of the compositor (workspaces, focus,
layer surfaces, grabs, swipes, slides) and says of each event what the state
becomes and which effects are to be carried out on the display, in order.
Windows and surfaces go by numbers, times are nanoseconds since the start, and
floating-point numbers are held as their IEEE patterns.

- `state`, `workspace`, `shell`: windows, workspaces, focus, client requests
- `input`, `keys`, `keybinds`, `pointer`, `grab`, `swipe`, `transition`: input
- `actions`, `launch`, `ipc`: what keys and outside commands ask for
- `layout`, `frame`, `render`, `animation`, `drm`: tiles and frames
- `config`, `lua`, `colors`, `paths`, `deploy`, `session`: configuration and the
  environment of the session
- `text`, `bits`, `geometry`: texts, IEEE comparisons, rectangles
- `laws`: what holds of every operation

`app/` is the program around it: it talks to the display, the devices, the file
system and other programs, and does the floating-point arithmetic. It needs the
system libraries of udev, libseat, libinput, xkbcommon, GBM and EGL.

`tests/` runs the library on concrete values.
