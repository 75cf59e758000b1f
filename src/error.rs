use vstd::prelude::*;

verus! {

/// The errors that a request or a connection can end with.
#[derive(Debug, Clone, Copy, PartialEq, Eq, Structural)]
pub enum Error {
    /// The channel had no room for the request when it was submitted.
    NotReady,
    /// The connection went away before a response arrived.
    Canceled,
    /// The connection is closed and takes no more requests.
    Closed,
    /// The peer closed the connection while requests were outstanding.
    Incomplete,
    /// The protocol engine reported an event that the connection does not admit.
    Unexpected,
    /// The transport or the protocol engine failed; the code is the engine's own.
    Fault(u64),
}

impl Error {
    /// Whether the request was canceled, before or after it was submitted.
    pub fn is_canceled(&self) -> (r: bool)
        ensures
            r == (*self is NotReady || *self is Canceled),
    {
        match self {
            Error::NotReady => true,
            Error::Canceled => true,
            _ => false,
        }
    }

    /// Whether the connection is closed for good.
    pub fn is_closed(&self) -> (r: bool)
        ensures
            r == (*self is Closed),
    {
        match self {
            Error::Closed => true,
            _ => false,
        }
    }

    /// The description of the error.
    pub fn message(&self) -> (r: &'static str)
        ensures
            *self is NotReady ==> r@ == "connection was not ready"@,
            *self is Canceled ==> r@ == "connection closed before the response arrived"@,
            *self is Closed ==> r@ == "connection is closed"@,
            *self is Incomplete ==> r@ == "connection closed before the message completed"@,
            *self is Unexpected ==> r@ == "unexpected event from the protocol engine"@,
            *self is Fault ==> r@ == "connection failed"@,
    {
        match self {
            Error::NotReady => "connection was not ready",
            Error::Canceled => "connection closed before the response arrived",
            Error::Closed => "connection is closed",
            Error::Incomplete => "connection closed before the message completed",
            Error::Unexpected => "unexpected event from the protocol engine",
            Error::Fault(_) => "connection failed",
        }
    }
}

} // verus!
