# hyoka

The state of a desktop status bar, written in Rust and verified with Verus: the workspaces and the
active window, the tray, the volume, the backlight, the battery, the clock, and one tooltip.

`src/` is the library. It does no input or output: each thing that happens is a call, and each
call gives the new state and a list of what is to be done outside.

- `runner` is the state: `runner::start` makes it, `Runner::update` takes what the widgets report,
  `runner::dispatch` what happens around the bar, `runner::surfaces` what happens to the windows;
  `runner::bar` says what is shown, and `runner::laws` what holds throughout.
- `battery`, `backlight`, `volume`, `tray`, `clock`, `tooltip` and `windows` are its parts.
- `icons` keeps the icons used last, `picture` reads pixmaps and prepares drawings, `theme` has the
  colours.
- `uevent`, `clients`, `hyprland` and `pipewire` read what the kernel, the compositor and the sound
  server tell; `events` has what that means to the bar.
- `attr`, `bitset`, `bytes`, `charging`, `float`, `fx` and `text` are the ground they stand on.

`app/` draws the widgets, reads the files and sockets, and runs the event loop. The windows, the
tray and the sensors are handed in through the traits of `app/outside.rs`.

Numbers with a fraction are kept by the bits that store them, and compared by those.

Sound goes through the `pipewire` crate, which needs the development files of `libpipewire`.
