# nitora

Nitora controls extended (XDR/EDR) display brightness on macOS: a service
keeps a tiny EDR overlay window on each capable display and scales the
displays' gamma tables, and a command line tool talks to the service over a
Unix socket (`nitora serve`, `enable`, `disable`, `toggle`, `status`,
`set N`, and the launchd helpers).

Layout:

- `src/` — the verified library (Verus):
  - `server.rs`: the service state machine. `ServiceState::backend_call`
    names what a request needs from the display backend;
    `ServiceState::handle_request` turns the backend's outcome into the new
    state and the answer. `plan_apply` lays out the backend steps for
    turning the boost on or off, and `settle_apply` says which gamma tables
    are kept and what is reported once they ran. Proof functions state the laws (toggling
    twice, status after set, failures never enable, ...).
  - `ipc.rs`: requests, responses, and the socket path (as raw path bytes).
  - `cli.rs`: the commands, the request each sends, and the printed answer.
  - `launchd.rs`: the agent property list, XML escaping, and the laws that
    escaping and reading the property list back lose nothing.
  - `device.rs`, `display.rs`, `gamma.rs`: the model identifier, display
    names and the gamma table checks.
  - `text.rs`: decimal numbers and path joining.
- `app/` — the macOS program around it: clap and serde types, the socket
  transport, the AppKit/Metal overlay, CoreGraphics and IOKit calls, and the
  floating point brightness factors.
- `tests/` — tests of the library.
