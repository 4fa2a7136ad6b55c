# realm_control

The verified control logic of a TCP/UDP relay.

- `src/` holds the decisions: how often a listener is bound (`retry`), what a TCP
  and a UDP relay do next (`tcp`, `udp`), what their detached tasks hold on to
  (`endpoint`), which relays run (`workers`), when the process reloads or stops
  (`supervisor`, and `life` for what holds from its start to its end), how its
  configuration comes about (`startup`) and what it writes about itself
  (`report`).
- `app/` performs them: sockets, signals, runtimes and the logger. What differs
  from build to build is behind its `Host` trait, and `launch` is what `main`
  calls.
- `tests/` runs the machines through whole scenarios.

Each machine is a function from a state and an event to the next state and an
action. Its contract gives both exactly, and proof functions state what holds of
every series of events.
