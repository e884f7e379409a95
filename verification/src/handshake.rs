//! What a client stated when it connected.

use vstd::prelude::*;
use crate::value::Value;

verus! {

/// The handshake of a connection.
#[derive(Debug, PartialEq, Eq)]
pub struct Handshake {
    /// The URL that the client asked for.
    pub url: String,
    /// When the handshake was made, in milliseconds since the Unix epoch.
    pub issued: u64,
    /// What the client sent to identify itself.
    pub auth: Value,
}

} // verus!
