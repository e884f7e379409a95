//! The packets that a connection takes in and gives out.

use vstd::prelude::*;
use crate::value::Value;

verus! {

/// The payload of a binary packet with its frames.
#[derive(Debug, PartialEq, Eq)]
pub struct BinaryPacket {
    pub data: Value,
    /// The frames that came with the packet. A packet on its way out holds none: its
    /// frames travel beside it.
    pub bin: Vec<Vec<u8>>,
    /// How many frames belong to the packet.
    pub payload_count: usize,
}

pub struct BinaryPacketView {
    pub data: Value,
    pub bin: Seq<Vec<u8>>,
    pub payload_count: usize,
}

impl View for BinaryPacket {
    type V = BinaryPacketView;

    open spec fn view(&self) -> BinaryPacketView {
        BinaryPacketView { data: self.data, bin: self.bin@, payload_count: self.payload_count }
    }
}

impl BinaryPacketView {
    /// A binary packet on its way out: `payload_count` frames are to follow it.
    pub open spec fn outgoing(data: Value, payload_count: usize) -> BinaryPacketView {
        BinaryPacketView { data, bin: Seq::empty(), payload_count }
    }
}

impl BinaryPacket {
    /// A binary packet on its way out: `payload_count` frames are to follow it.
    pub fn outgoing(data: Value, payload_count: usize) -> (p: BinaryPacket)
        ensures
            p@ == BinaryPacketView::outgoing(data, payload_count),
    {
        BinaryPacket { data, bin: Vec::new(), payload_count }
    }
}

/// What a packet says, by its kind.
#[derive(Debug, PartialEq, Eq)]
pub enum PacketData {
    /// An event: its name, its payload, and the id to acknowledge it under, if any.
    Event(String, Value, Option<i64>),
    /// The acknowledgement of the event that was sent under the id.
    EventAck(Value, i64),
    /// An event with binary frames.
    BinaryEvent(String, BinaryPacket, Option<i64>),
    /// An acknowledgement with binary frames.
    BinaryAck(BinaryPacket, i64),
}

pub enum PacketDataView {
    Event(String, Value, Option<i64>),
    EventAck(Value, i64),
    BinaryEvent(String, BinaryPacketView, Option<i64>),
    BinaryAck(BinaryPacketView, i64),
}

impl View for PacketData {
    type V = PacketDataView;

    open spec fn view(&self) -> PacketDataView {
        match *self {
            PacketData::Event(e, data, ack) => PacketDataView::Event(e, data, ack),
            PacketData::EventAck(data, ack) => PacketDataView::EventAck(data, ack),
            PacketData::BinaryEvent(e, packet, ack) => PacketDataView::BinaryEvent(
                e,
                packet@,
                ack,
            ),
            PacketData::BinaryAck(packet, ack) => PacketDataView::BinaryAck(packet@, ack),
        }
    }
}

impl PacketDataView {
    /// The same packet asking to be acknowledged under `ack_id`. Only events ask.
    pub open spec fn with_ack_id(self, ack_id: i64) -> PacketDataView {
        match self {
            PacketDataView::Event(e, data, _) => PacketDataView::Event(e, data, Some(ack_id)),
            PacketDataView::BinaryEvent(e, packet, _) => PacketDataView::BinaryEvent(
                e,
                packet,
                Some(ack_id),
            ),
            other => other,
        }
    }
}

impl PacketData {
    /// Makes an event ask for an acknowledgement under `ack_id`. An acknowledgement is left
    /// as it is.
    pub fn set_ack_id(&mut self, ack_id: i64)
        ensures
            final(self)@ == old(self)@.with_ack_id(ack_id),
    {
        match self {
            PacketData::Event(_, _, ack) => {
                *ack = Some(ack_id);
            },
            PacketData::BinaryEvent(_, _, ack) => {
                *ack = Some(ack_id);
            },
            _ => {},
        }
    }
}

/// A packet: what it says, and the path of the namespace it belongs to.
#[derive(Debug, PartialEq, Eq)]
pub struct Packet {
    pub inner: PacketData,
    pub ns: String,
}

pub struct PacketView {
    pub inner: PacketDataView,
    pub ns: String,
}

impl View for Packet {
    type V = PacketView;

    open spec fn view(&self) -> PacketView {
        PacketView { inner: self.inner@, ns: self.ns }
    }
}

impl PacketView {
    /// An event that asks for no acknowledgement.
    pub open spec fn event(ns: String, e: String, data: Value) -> PacketView {
        PacketView { inner: PacketDataView::Event(e, data, None), ns }
    }

    /// An event that `payload_count` binary frames follow.
    pub open spec fn bin_event(ns: String, e: String, data: Value, payload_count: usize)
        -> PacketView {
        PacketView {
            inner: PacketDataView::BinaryEvent(
                e,
                BinaryPacketView::outgoing(data, payload_count),
                None,
            ),
            ns,
        }
    }

    /// The acknowledgement of the event that came under `ack`.
    pub open spec fn ack(ns: String, data: Value, ack: i64) -> PacketView {
        PacketView { inner: PacketDataView::EventAck(data, ack), ns }
    }

    /// An acknowledgement that `payload_count` binary frames follow.
    pub open spec fn bin_ack(ns: String, data: Value, payload_count: usize, ack: i64)
        -> PacketView {
        PacketView {
            inner: PacketDataView::BinaryAck(BinaryPacketView::outgoing(data, payload_count), ack),
            ns,
        }
    }

    /// How many binary frames the packet says belong to it.
    pub open spec fn frame_count(self) -> nat {
        match self.inner {
            PacketDataView::BinaryEvent(_, packet, _) => packet.payload_count as nat,
            PacketDataView::BinaryAck(packet, _) => packet.payload_count as nat,
            _ => 0,
        }
    }
}

impl Packet {
    /// An event that asks for no acknowledgement.
    pub fn event(ns: String, e: String, data: Value) -> (p: Packet)
        ensures
            p@ == PacketView::event(ns, e, data),
    {
        Packet { inner: PacketData::Event(e, data, None), ns }
    }

    /// An event that `payload_count` binary frames follow.
    pub fn bin_event(ns: String, e: String, data: Value, payload_count: usize) -> (p: Packet)
        ensures
            p@ == PacketView::bin_event(ns, e, data, payload_count),
    {
        Packet {
            inner: PacketData::BinaryEvent(e, BinaryPacket::outgoing(data, payload_count), None),
            ns,
        }
    }

    /// The acknowledgement of the event that came under `ack`.
    pub fn ack(ns: String, data: Value, ack: i64) -> (p: Packet)
        ensures
            p@ == PacketView::ack(ns, data, ack),
    {
        Packet { inner: PacketData::EventAck(data, ack), ns }
    }

    /// An acknowledgement that `payload_count` binary frames follow.
    pub fn bin_ack(ns: String, data: Value, payload_count: usize, ack: i64) -> (p: Packet)
        ensures
            p@ == PacketView::bin_ack(ns, data, payload_count, ack),
    {
        Packet {
            inner: PacketData::BinaryAck(BinaryPacket::outgoing(data, payload_count), ack),
            ns,
        }
    }
}

} // verus!
