# idlemon

A lightweight Mutter `IdleMonitor` D-Bus shim for X11, with a verified core.

idlemon serves the part of `org.gnome.Mutter.IdleMonitor` that desktop
applications rely on for idle detection: `GetIdletime`, `AddIdleWatch`,
`AddUserActiveWatch`, `RemoveWatch` and the `WatchFired` signal. Idle times come
from the X11 MIT-SCREEN-SAVER extension.

- `src/` is the library, proved with Verus: the watch registry, the answers to
  the requests, the decisions of the poll loop and of the cleanup loop.
  `src/model.rs` says what the registry means and `src/laws.rs` what holds of it
  as a whole. `src/bus.rs` is the only module that calls `zbus`; its three
  trusted functions read a sender, a name and a signal's arguments.
- `app/` is the daemon: it talks to the bus and to the X server, waits, logs,
  and leaves every decision to the library.
- `tests/` runs the library on concrete values.

The order in which watches of one kind are reported at a tick is that of a hash
table and thus open; user-active watches always come before idle watches.
