//! The routing core of a socket.io server: which handler an event goes to, which request
//! an acknowledgement belongs to, and whom a broadcast reaches.
//!
//! Nothing here reads or writes a socket. A connection takes packets in and says what is
//! left to do; whatever goes out is handed back as a value, or to the adapter of the
//! namespace.

pub mod adapters;
pub mod errors;
pub mod handshake;
pub mod ns;
pub mod operators;
pub mod packet;
pub mod socket;
pub mod unique;
pub mod value;
