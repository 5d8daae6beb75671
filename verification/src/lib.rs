//! Supervision of named port-forwarding tunnel sessions.
//!
//! Each session is an isolated unit of state: a lifecycle status, the
//! caller-supplied configuration, and an append-only log per output stream
//! of the underlying external process.  The state machine, the message
//! protocol and the decisions of the multiplexed event loop live in
//! [`session`]; [`command`] pins down the spawn command a configuration
//! calls for, with [`decimal`] rendering its port numbers; [`servers`]
//! holds the persisted list of session records and its ordering.  The
//! processes, channels and I/O that feed events in are left to the
//! embedding program.

pub mod command;
pub mod config;
pub mod decimal;
pub mod servers;
pub mod session;
