# qgc_core

The core of a ground-control station for MAVLink vehicles, written in Verus.
The library (`src/`) holds the domain model and the decisions of the core,
each with a contract that Verus proves:

- `domain` — vehicles, devices, connections, parameters, missions.
- `discovery` — the registry of known devices and what a port scan changes.
- `telemetry` — reading heartbeats, system status, GPS reports and status
  texts into the domain model.
- `mavlink` — session state: link selection, connection status, heartbeat
  bookkeeping, parameter downloads and the simulated vehicle.
- `events` — the events published to the shell.
- `error` — the core's errors and how they are reported.
- `text` — decimal and hexadecimal rendering, joining, zero-terminated fields.
- the crate root — the requests of the desktop shell (diagnostics, connection
  options, device lists).

`app/` is the Node.js module around the library: napi bindings, the event
sink, the serial-port scan loop, the MAVLink transport and its tasks, and the
floating-point unit conversions for the shell.

Mission transfer is not provided yet: the shell's mission-plan requests
(current and cached plan, mission download and upload) have no counterpart
in the library or in `app/`. The mission types in `domain` and the mission
events are in place for it.
