//! Coffer: a MicroVM runtime on top of Firecracker.
//!
//! The library holds what the runtime decides and computes: the protocol between
//! host and guest, the agent inside the guest, the calls of the Firecracker API,
//! the network of the sandboxes, the warm pool, templates, and the command-line
//! interface. It performs no input or output. Where an operation alternates
//! between the two, the library is a machine that takes an event and says what to
//! do next; where it is a fixed sequence, the library gives the sequence.

pub mod agent;
pub mod cli;
pub mod config;
pub mod emulator;
pub mod error;
pub mod exchange;
pub mod firecracker;
pub mod guest;
pub mod keys;
pub mod maps;
pub mod net;
pub mod numeric;
pub mod platform;
pub mod pool;
pub mod proto;
pub mod protocol;
pub mod repl;
pub mod run;
pub mod runtime;
pub mod template;
pub mod text;
pub mod tui;
pub mod vm;
