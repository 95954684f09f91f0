# OpenCodeServer

OpenCodeServer keeps one OpenCode process running on a Mac: an agent starts it,
watches its health, recovers it within bounds, and answers a menu-bar
application and a command-line client over a private socket.

The library under `src/` holds everything that is decided, as executable Rust
with contracts that Verus proves. It performs no input or output. Whoever drives
it hands in plain facts (a file's metadata, a process snapshot, the outcome of a
write) and performs what it asks for.

- `config`, `address`, `config_fingerprint`, `paths`, `private_file`,
  `runtime_state`, `credential_grant`: what is kept on disk, and when it is
  acceptable.
- `process`, `process_start`, `process_group`, `process_cleanup`,
  `version_cleanup`, `platform`: how a process is started, which processes are
  ours, and which may be signaled or reaped.
- `keychain`, `health`: how answers of the keychain and of OpenCode are read.
- `supervisor`: the state machine. `Supervisor::step` takes a reply and names
  the next effect; `supervisor::single_process` proves that no process is ever
  started while another one runs or is suspected to.
- `protocol`, `ipc`, `agent`, `agent_loop`, `control`: the control socket, the
  event loop and the client.
- `fixture`, `test_events`: the stand-in for OpenCode that supervision tests run.

Instants and durations are nanoseconds.

`app/` performs the effects: files, sockets, processes, kqueue, the keychain.
`tests/` runs the library on concrete values.
