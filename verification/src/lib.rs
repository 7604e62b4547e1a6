//! A line-oriented text relay: every line one connection sends is handed to all
//! other connections, and the sender gets an acknowledgement in its place.
//!
//! The crate holds the relay's rules: the wire lines, the log events, and the
//! decisions that the listener and each connection's reading and writing
//! side take on what a socket or a subscription reports. Sockets and tasks
//! are the caller's; the bus that joins the connections is tokio's broadcast
//! channel.

pub mod bus;
pub mod decimal;
pub mod journal;
pub mod listener;
pub mod reader;
pub mod relay;
pub mod supervisor;
pub mod task;
pub mod wire;
pub mod writer;
