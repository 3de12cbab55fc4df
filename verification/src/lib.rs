//! Patch review broker: submitters send a unified diff plus free-form
//! metadata over a persistent framed connection; a single human operator serializes
//! the concurrently arriving submissions into one FIFO queue, looks at one
//! item at a time, and answers each submission on the private response
//! channel of the connection that sent it.
//!
//! The crate holds the broker's logic: the wire codec for the two message
//! kinds, the unified-diff model and parser, the request queue with its
//! non-destructive lookahead, and the state machines of the review loop and
//! of a connection handler.  The asynchronous transport around it (sockets,
//! terminal, tasks) lives outside and drives these functions with plain
//! values.

pub mod args;
pub mod client;
pub mod diff;
pub mod models;
pub mod server;
pub mod tui;
