//! The connection-level engine of an HTTP client.
//!
//! A `Builder` holds the connection options; its `handshake` starts a
//! `Handshake` over a transport. Polling that once yields the caller's
//! `SendRequest` handle, the `Connection` driver and the `Dispatch` channel
//! that links the two. The driver is advanced with the events that the
//! protocol engine reports and answers with the action to perform next.
use vstd::prelude::*;

pub mod error;
pub mod poll;
pub mod dispatch;
pub mod handle;
pub mod conn;

pub use error::Error;
pub use poll::Poll;
