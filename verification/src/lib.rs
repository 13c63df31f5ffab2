//! A turn-save relay: a sequential server that accepts one short-lived peer
//! connection at a time over a named duplex byte channel, decodes a one-line
//! command, moves a turn-numbered save between the local save directory and
//! a remote object store, and answers with a single structured response.
//!
//! The crate holds the verified logic: the command grammar, the canonical
//! naming of save files and remote objects, the dispatch table, the
//! download-fallback policy, and the connection-cycle state machine with its
//! teardown guarantee. The driver that owns the endpoint handle, the
//! filesystem and the network feeds events in and carries actions out.

pub mod bytes;
pub mod text;
pub mod protocol;
pub mod paths;
pub mod config;
pub mod dispatch;
pub mod sync;
pub mod server;
