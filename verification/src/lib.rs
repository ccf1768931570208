//! The decisions of a tunnel client: how a control connection is opened, when a
//! failed one is tried again, how the messages of the server are answered and
//! how a forwarded connection is set up.
//!
//! Nothing in here touches a socket or a clock. Each procedure is a value that
//! names the next action; the caller carries it out and hands back what came of
//! it.

pub mod backoff;
pub mod client;
pub mod command;
pub mod connect;
pub mod error;
pub mod forward;
pub mod listen;
pub mod message;
pub mod opening;
pub mod reconnect;
pub mod retry;
pub mod span;
pub mod text;
