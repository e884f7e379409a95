//! What a namespace asks of the component that keeps its rooms and delivers its broadcasts.

use vstd::prelude::*;
use crate::errors::Error;
use crate::operators::{BroadcastOptions, RoomParam};
use crate::packet::{Packet, PacketView};

verus! {

/// Whether a packet announces as many binary frames as go with it.
pub open spec fn frames_announced(packet: PacketView, binary: Option<Vec<Vec<u8>>>) -> bool {
    packet.frame_count() == match binary {
        Some(frames) => frames@.len(),
        None => 0,
    }
}

/// Room membership and delivery for one namespace, in one process or across a cluster.
///
/// An adapter answers for delivery: a broadcast goes to the connections that are in one of
/// `opts.rooms` (to every connection, where that list is empty), but not to those in one
/// of `opts.except`, nor to the connection `opts.sid` that it comes from. With the flag
/// `Local` it stays in this process. In turn it may rely on what `broadcast` and
/// `broadcast_with_ack` require: the options name nothing twice, and the packet announces
/// as many frames as come with it.
pub trait Adapter: Sized {
    /// The outcomes of a broadcast that asked for acknowledgements: one entry for each
    /// receiver that is to acknowledge, as they come in.
    type AckStream;

    /// Puts the connection `sid` into each of the rooms.
    fn add_all<R: RoomParam>(&self, sid: i64, rooms: R);

    /// Takes the connection `sid` out of each of the rooms.
    fn del<R: RoomParam>(&self, sid: i64, rooms: R);

    /// Takes the connection `sid` out of every room.
    fn del_all(&self, sid: i64);

    /// Sends the packet with its frames to the connections that `opts` selects, and waits
    /// for no reply.
    fn broadcast(&self, packet: Packet, binary: Option<Vec<Vec<u8>>>, opts: BroadcastOptions) -> (outcome:
        Result<(), Error>)
        requires
            opts.wf(),
            frames_announced(packet@, binary),
    ;

    /// Sends as `broadcast` does, and hands back the acknowledgements to come.
    fn broadcast_with_ack(
        &self,
        packet: Packet,
        binary: Option<Vec<Vec<u8>>>,
        opts: BroadcastOptions,
    ) -> (outcome: Self::AckStream)
        requires
            opts.wf(),
            frames_announced(packet@, binary),
    ;
}

} // verus!
