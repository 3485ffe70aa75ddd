# controlcenter

The verified core of a Linux control center for a laptop: a root daemon
that serves battery charge-limit, platform-profile and OS-update controls
over D-Bus (gated by polkit), and a control-panel window that talks to it.

- `src/` is the library, verified with Verus:
  - `text`: the string handling the rest relies on (`trim`, `lines`,
    `split_whitespace`, `join`, decimal parsing and printing), each against
    a mathematical statement;
  - `error`: the daemon's errors, the D-Bus error each one becomes, and
    the message a caller sees for it;
  - `polkit`: what polkit's answer means for a request;
  - `daemon`: the attribute checks, and each privileged method as a state
    machine that asks for one action at a time (ask polkit, read, write,
    run a program, notify, reply), with the laws that polkit gates every
    write and that every successful write is read back;
  - `gui`: the panels' state and how clicks and the daemon's answers change
    it.
- `app/` is the program around it: D-Bus serving and proxies, sysfs and
  process I/O, the polkit call, the egui window. `controlcenter daemon`
  runs the daemon, `controlcenter gui` the window.
- `tests/` runs the library on concrete values.
