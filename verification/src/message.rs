//! Commands on the server's message queue.

pub mod ack;
pub mod poll;
