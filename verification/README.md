# leafshell

The logic of LeafShell's top bar for Hyprland, verified with Verus.

- `src/` is the verified library: reading what `nmcli`, `wpctl` and
  `hyprctl` report (`network`, `audio`, `hyprland`), the media player's
  labels (`media`), the command lines that change the system (`command`),
  and the bar's state machine, workspace row and hub (`topbar`).
  `text` holds the character-level helpers they share.
- `app/` runs the system tools, talks to the MPRIS player over D-Bus, and
  draws the bar with iced; it hands the library plain values and performs
  the effects that the library's `update` returns.
- `tests/` runs the library on concrete values and against plain std and
  chrono code for the same computations.

`app/` does not build in this setting: the GUI crates (`iced`,
`iced_layershell`, `iced_box`) are too large to fetch here and are left out
of `Cargo.toml`, `widgets` is LeafShell's own workspace crate, and `mpris`
needs the system's libdbus.
