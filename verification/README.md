# PiP Viewer

A picture-in-picture viewer for Linux desktops: it lives in the system tray, and shows a window of
your choice, scaled down, in a small window that stays on top.

- `src/` is the library: everything the viewer decides and computes, verified with Verus. A task
  that needs the X server, such as listing the windows, letting the user click on one or capturing
  frames, is a state that names the next request and is advanced by the reply to it.
- `tests/` runs the library on concrete values.
- `app/` is the program around it: it performs the requests, and connects the library to the
  window system, the system tray, the desktop portal and PipeWire.

The program reads its icon from `pictureinpicture.png` in the working directory.
