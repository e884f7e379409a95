//! What can go wrong on a connection.

use vstd::prelude::*;

verus! {

/// A failure of dispatch or of a send.
#[derive(Debug, PartialEq, Eq)]
pub enum Error {
    /// A payload does not fit the shape that its handler declared; the text says why.
    Validation(String),
    /// The transport did not take a packet; the text says why.
    Transport(String),
}

/// Why a request that asked for an acknowledgement got none.
#[derive(Debug, PartialEq, Eq)]
pub enum AckError {
    /// No reply came within the time allowed.
    Timeout,
    /// The connection went away while the reply was awaited.
    Closed,
    /// A reply came, but not in the shape the caller expects; the text says why.
    MalformedReply(String),
    /// The request never left.
    Send(Error),
}

} // verus!
