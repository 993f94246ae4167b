//! Control plane of a proof-of-work mining engine.
//!
//! A pool of independent solver workers, each backed by a compute plugin,
//! shares one mutable job definition (a header template split around the
//! nonce field, plus a difficulty target) and reports solutions and per-worker
//! statistics back into that shared record.  This crate holds the verified
//! core: the shared job/solution/stats state and the operations on it, the
//! worker and stop-watcher control state machines, and the assembly of a
//! concrete header from the two fragments and a nonce.  Threads, channels,
//! locks and the plugin capability itself live outside the verified core and
//! drive it through these operations.

pub mod header;
pub mod shared;
pub mod types;
pub mod worker;
