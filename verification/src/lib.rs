//! A small, single-threaded, callback-driven I/O reactor core.
//!
//! The crate verifies the decision logic of the reactor: a stable-index slot
//! table with a take/restore discipline, the object store and handler table
//! built on it, the dispatch of readiness events to user objects, the process
//! reaper queue, and cooperative shutdown. The operating-system side (the
//! readiness poller, signal streams, child processes) lives outside; it hands
//! the reactor plain events and receives plain decisions back.

pub mod laws;
pub mod reactor;
pub mod server;
pub mod slot;
