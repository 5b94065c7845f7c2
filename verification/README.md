# vibepanel controls

The command-backed hardware and service controls of the panel: ASUS fan
profiles and graphics modes (`asusctl`, `supergfxctl`, `niri`) and systemd
VPN services (`systemctl` through non-interactive `sudo`).

- `src/` is the verified library. It builds every command invocation,
  interprets what a finished command reported (parsers, error messages,
  systemd state classification), reads the widget configuration, and holds
  the popover rows as state machines (`fan_panel`, `graphics_panel`,
  `service_toggle`) whose transitions and invariants are proved.
- `app/` runs the commands with a timeout that kills the whole process group,
  and drives the state machines on worker threads.
- `tests/` exercises the library on concrete values.
