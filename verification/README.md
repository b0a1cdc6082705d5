# Coffer

A MicroVM runtime on top of Firecracker: sandboxes for short-lived workloads,
kept warm in a pool, reached over vsock, and driven from a command line.

`src/` is a Verus library. It holds what the runtime decides and computes, each
function with a contract that Verus checks:

| Module | What it holds |
|--------|---------------|
| `proto`, `protocol` | the messages of host and guest, JSON Lines framing, the host's side of a connection |
| `agent` | the guest's side: requests, captured and interactive commands |
| `firecracker`, `vm` | the calls of the Firecracker API, HTTP over a Unix socket, the life cycle of a VM |
| `net` | bridge, TAP devices, addresses, NAT and egress rules |
| `pool`, `runtime` | the warm pool, resource limits, how sandboxes are launched and given up |
| `template` | building templates from OCI images, snapshots |
| `cli`, `run`, `keys`, `repl`, `tui` | the command line and the terminals |
| `emulator` | the terminal emulator of the `vt100` crate, and what it shows |
| `config`, `error` | settings and errors |
| `text`, `numeric` | strings and numbers |
| `platform`, `maps` | what else is taken from other crates on trust |

The library performs no input or output. Where an operation alternates between
decisions and the outside, the library is a machine that takes an event and
returns an action. Where an operation is a fixed sequence, the library returns
the sequence. Properties that span several functions are stated as public proof
functions whose names begin with `law_`.

`app/` is the program around the library: sockets, processes, files, the
terminal, and the JSON forms of the messages. One binary serves as `coffer-cli`
on the host and as `coffer-agent` in the guest.
