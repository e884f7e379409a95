//! One connection: the handlers of its events and the acknowledgements it waits for.

use std::collections::HashMap;
use std::sync::Arc;
use std::time::Duration;
use tokio::sync::oneshot::{Receiver, Sender};
use vstd::hash_map::StringHashMap;
use vstd::prelude::*;
use vstd::std_specs::convert::FromSpecImpl;
use crate::adapters::Adapter;
use crate::errors::{AckError, Error};
use crate::handshake::Handshake;
use crate::ns::{share, Namespace};
use crate::operators::{
    BroadcastFlags, BroadcastOptionsView, Operators, OperatorsView, RoomParam,
};
use crate::unique::first_occurrences;
use crate::packet::{BinaryPacket, Packet, PacketData, PacketDataView, PacketView};
use crate::value::Value;

verus! {

/// `tokio::sync::oneshot::Sender`: the end of a channel that hands over one value. Nothing
/// is known of what it holds.
#[verifier::external_type_specification]
#[verifier::external_body]
#[verifier::reject_recursive_types(T)]
pub struct ExSender<T>(tokio::sync::oneshot::Sender<T>);

/// `tokio::sync::oneshot::Receiver`: the end of a channel at which the one value arrives.
/// Nothing is known of what it holds.
#[verifier::external_type_specification]
#[verifier::external_body]
#[verifier::reject_recursive_types(T)]
pub struct ExReceiver<T>(tokio::sync::oneshot::Receiver<T>);

/// `tokio::sync::oneshot::error::RecvError`: what awaiting a `Receiver` gives once the
/// sending end is gone. It is named in the signature of that wait, and used nowhere here.
#[verifier::external_type_specification]
#[verifier::external_body]
pub struct ExRecvError(tokio::sync::oneshot::error::RecvError);

/// What an acknowledgement brings: its payload, and its binary frames if it has any.
pub type AckResponse<T> = (T, Option<Vec<Vec<u8>>>);

/// `tokio::sync::oneshot::channel`: the two ends of a fresh channel that carries one value.
/// Nothing is promised of them here; `ends_of_one_channel` stands for their belonging
/// together.
#[verifier::external_body]
fn channel() -> (ends: (Sender<AckResponse<Value>>, Receiver<AckResponse<Value>>)) {
    tokio::sync::oneshot::channel()
}

/// `tokio::sync::oneshot::Sender::send`: hands the response to the receiving end of the
/// channel and uses the sending end up. Where the receiving end is gone the response comes
/// back and is dropped here. Nothing is promised of the call; `handed` stands for its
/// having been made.
#[verifier::external_body]
fn deliver(waiter: Sender<AckResponse<Value>>, response: AckResponse<Value>) {
    let _ = waiter.send(response);
}

/// Whether `waiter` and `reply` are the two ends of one channel, as `oneshot::channel`
/// made them.
pub closed spec fn ends_of_one_channel(
    waiter: Sender<AckResponse<Value>>,
    reply: Receiver<AckResponse<Value>>,
) -> bool {
    call_ensures(channel, (), (waiter, reply))
}

/// Whether `response` was handed to `waiter` by `Sender::send`.
pub closed spec fn handed(waiter: Sender<AckResponse<Value>>, response: AckResponse<Value>) -> bool {
    call_ensures(deliver, (waiter, response), ())
}

/// What a handler answers to an event that asked for an acknowledgement.
#[derive(Debug, PartialEq, Eq)]
pub enum Ack<T> {
    /// Binary frames alone.
    Bin(Vec<Vec<u8>>),
    /// A payload alone.
    Data(T),
    /// A payload with binary frames.
    DataBin(T, Vec<Vec<u8>>),
    /// Nothing.
    Empty,
}

impl From<()> for Ack<()> {
    fn from(_unit: ()) -> (ack: Self) {
        Ack::Empty
    }
}

impl FromSpecImpl<()> for Ack<()> {
    open spec fn obeys_from_spec() -> bool {
        true
    }

    open spec fn from_spec(_unit: ()) -> Self {
        Ack::Empty
    }
}

impl<T> Ack<T> {
    /// The binary frames of the answer, if it has any.
    pub open spec fn frames(&self) -> Option<Vec<Vec<u8>>> {
        match *self {
            Ack::Bin(frames) => Some(frames),
            Ack::DataBin(_, frames) => Some(frames),
            _ => None,
        }
    }
}

impl Ack<Value> {
    /// Whether `data` is the payload that acknowledges with this answer: the payload of the
    /// answer, or the object without members where the answer has none.
    pub open spec fn is_payload(&self, data: Value) -> bool {
        match *self {
            Ack::Data(payload) => data == payload,
            Ack::DataBin(payload, _) => data == payload,
            _ => data.is_empty_object(),
        }
    }
}

/// A packet on its way to the client, with the binary frames that follow it.
#[derive(Debug, PartialEq, Eq)]
pub struct Outbound {
    pub packet: Packet,
    pub payload: Option<Vec<Vec<u8>>>,
}

impl Outbound {
    /// Whether this is the acknowledgement, in the namespace at `path`, of the event that
    /// came under `ack_id`, made of the answer `ack`.
    pub open spec fn acknowledges(&self, path: String, ack_id: i64, ack: Ack<Value>) -> bool {
        &&& self.packet@.ns == path
        &&& self.payload == ack.frames()
        &&& match ack.frames() {
            Some(frames) => {
                &&& self.packet@.inner matches PacketDataView::BinaryAck(packet, id)
                &&& id == ack_id
                &&& ack.is_payload(packet.data)
                &&& packet.bin.len() == 0
                &&& packet.payload_count == frames@.len()
            },
            None => {
                &&& self.packet@.inner matches PacketDataView::EventAck(data, id)
                &&& id == ack_id
                &&& ack.is_payload(data)
            },
        }
    }
}

/// What a handler declared to take.
#[derive(Debug, Clone, Copy, PartialEq, Eq)]
pub enum ParamShape {
    /// One value. A list of one that comes in its place stands for its one item.
    Scalar,
    /// A list, taken as it comes.
    List,
}

impl ParamShape {
    /// What a callback that declared this shape is given for a payload that came in.
    pub open spec fn adapted(self, payload: Value) -> Value {
        match (self, payload.single_item()) {
            (ParamShape::Scalar, Some(item)) => item,
            _ => payload,
        }
    }

    /// What a callback that declared this shape is given for a payload that came in.
    pub fn adapt(self, payload: Value) -> (given: Value)
        ensures
            given == self.adapted(payload),
    {
        match self {
            ParamShape::Scalar => payload.unwrap_single(),
            ParamShape::List => payload,
        }
    }
}

/// A handler as the connection keeps it: the shape it declared, and the callback.
#[derive(Debug, PartialEq, Eq)]
pub struct MessageHandler<H> {
    pub param: ParamShape,
    pub handler: H,
}

/// What is left to do for a packet that came in.
#[derive(Debug, PartialEq, Eq)]
pub enum Dispatch<'a, H> {
    /// Nothing.
    Done,
    /// A callback is to be run, on its own and without holding up the connection.
    Call {
        handler: &'a H,
        payload: Value,
        bin: Option<Vec<Vec<u8>>>,
        /// The id under which the event asks to be acknowledged, if it does.
        ack_id: Option<i64>,
    },
}

impl<'a, H> Dispatch<'a, H> {
    /// Whether this is what is left to do for an event `e` with the payload `data`, the
    /// frames `frames` and the id `ack`, where `handlers` are registered.
    pub open spec fn is_for_event(
        &self,
        handlers: Map<Seq<char>, MessageHandler<H>>,
        e: String,
        data: Value,
        frames: Option<Vec<Vec<u8>>>,
        ack: Option<i64>,
    ) -> bool {
        match *self {
            Dispatch::Done => !handlers.contains_key(e@),
            Dispatch::Call { handler, payload, bin, ack_id } => {
                &&& handlers.contains_key(e@)
                &&& *handler == handlers[e@].handler
                &&& payload == handlers[e@].param.adapted(data)
                &&& bin == frames
                &&& ack_id == ack
            },
        }
    }
}

/// A request that went out and waits to be acknowledged.
pub struct PendingAck {
    /// The id under which the acknowledgement is expected.
    pub id: i64,
    /// What is to be sent: the packet, which asks for the acknowledgement, and its frames.
    pub out: Outbound,
    /// How long to wait.
    pub timeout: Duration,
    /// Where the acknowledgement arrives.
    pub reply: Receiver<AckResponse<Value>>,
}

/// How the wait for an acknowledgement ended.
#[derive(Debug, PartialEq, Eq)]
pub enum AckWait<T> {
    /// The acknowledgement came in time. Its payload is given in the shape the caller
    /// expects, or else the reason why it does not fit that shape.
    Reply(Result<T, String>, Option<Vec<Vec<u8>>>),
    /// The time allowed went by.
    TimedOut,
    /// The connection went away.
    Closed,
    /// The request could not be sent.
    NotSent(Error),
}

impl<T> AckWait<T> {
    /// What the caller of the request is told.
    pub open spec fn outcome(self) -> Result<AckResponse<T>, AckError> {
        match self {
            AckWait::Reply(Ok(data), frames) => Ok((data, frames)),
            AckWait::Reply(Err(reason), _) => Err(AckError::MalformedReply(reason)),
            AckWait::TimedOut => Err(AckError::Timeout),
            AckWait::Closed => Err(AckError::Closed),
            AckWait::NotSent(e) => Err(AckError::Send(e)),
        }
    }

    /// What the caller of the request is told.
    pub fn into_result(self) -> (result: Result<AckResponse<T>, AckError>)
        ensures
            result == self.outcome(),
    {
        match self {
            AckWait::Reply(Ok(data), frames) => Ok((data, frames)),
            AckWait::Reply(Err(reason), _) => Err(AckError::MalformedReply(reason)),
            AckWait::TimedOut => Err(AckError::Timeout),
            AckWait::Closed => Err(AckError::Closed),
            AckWait::NotSent(e) => Err(AckError::Send(e)),
        }
    }
}

/// A connection to one namespace.
#[verifier::reject_recursive_types(A)]
#[verifier::reject_recursive_types(H)]
pub struct Socket<A: Adapter, H> {
    ns: Arc<Namespace<A>>,
    message_handlers: StringHashMap<MessageHandler<H>>,
    ack_message: HashMap<i64, Sender<AckResponse<Value>>>,
    ack_counter: i64,
    ack_timeout: Duration,
    pub handshake: Handshake,
    pub sid: i64,
}

#[verifier::reject_recursive_types(A)]
#[verifier::reject_recursive_types(H)]
pub struct SocketView<A: Adapter, H> {
    /// The namespace of the connection.
    pub namespace: Namespace<A>,
    /// The handler of each event that has one, by the name of the event.
    pub handlers: Map<Seq<char>, MessageHandler<H>>,
    /// The acknowledgements that are awaited: under each id, the sending end of the
    /// channel on which the request waits.
    pub pending: Map<i64, Sender<AckResponse<Value>>>,
    /// The last id that was given out; 0 before the first.
    pub issued: int,
    /// How long an acknowledgement is awaited where the request does not say.
    pub ack_timeout: Duration,
    pub handshake: Handshake,
    pub sid: i64,
}

impl<A: Adapter, H> View for Socket<A, H> {
    type V = SocketView<A, H>;

    closed spec fn view(&self) -> SocketView<A, H> {
        SocketView {
            namespace: *self.ns,
            handlers: self.message_handlers@,
            pending: self.ack_message@,
            issued: self.ack_counter as int,
            ack_timeout: self.ack_timeout,
            handshake: self.handshake,
            sid: self.sid,
        }
    }
}

impl<A: Adapter, H> SocketView<A, H> {
    /// Every id that is awaited was given out: it lies between 1 and the last one.
    pub open spec fn wf(self) -> bool {
        &&& 0 <= self.issued <= i64::MAX
        &&& forall|id: i64| self.pending.contains_key(id) ==> 1 <= id <= self.issued
    }

    /// The id that the next request is given.
    pub open spec fn next_id(self) -> int {
        self.issued + 1
    }
}

/// The ids of a connection grow, and none is awaited twice: the id that the next request
/// is given is at least 1, and greater than every id that is awaited. The first one is 1.
pub proof fn lemma_next_id_is_new<A: Adapter, H>(socket: SocketView<A, H>)
    requires
        socket.wf(),
    ensures
        socket.next_id() >= 1,
        socket.issued == 0 ==> socket.next_id() == 1,
        forall|id: i64| socket.pending.contains_key(id) ==> id < socket.next_id(),
{
}

impl<A: Adapter, H> Socket<A, H> {
    /// Every id that is awaited was given out: it lies between 1 and the last one.
    pub open spec fn wf(&self) -> bool {
        self@.wf()
    }

    /// A connection with no handler, waiting for nothing.
    pub fn new(ns: Arc<Namespace<A>>, handshake: Handshake, sid: i64, ack_timeout: Duration) -> (socket:
        Self)
        ensures
            socket.wf(),
            socket@ == (SocketView::<A, H> {
                namespace: *ns,
                handlers: Map::empty(),
                pending: Map::empty(),
                issued: 0,
                ack_timeout,
                handshake,
                sid,
            }),
    {
        let socket = Self {
            ns,
            message_handlers: StringHashMap::new(),
            ack_message: HashMap::new(),
            ack_counter: 0,
            ack_timeout,
            handshake,
            sid,
        };
        socket
    }

    /// Registers the handler of the event `event`, in place of the one it had.
    pub fn on_event(&mut self, event: String, param: ParamShape, callback: H)
        ensures
            final(self)@ == (SocketView::<A, H> {
                handlers: old(self)@.handlers.insert(
                    event@,
                    MessageHandler { param, handler: callback },
                ),
                ..old(self)@
            }),
    {
        self.message_handlers.insert(event, MessageHandler { param, handler: callback });
    }

    /// The event `event` with the payload `data`, to be sent to the client of this
    /// connection.
    pub fn emit(&self, event: String, data: Value) -> (out: Outbound)
        ensures
            out.packet@ == PacketView::event(self@.namespace.path, event, data),
            out.payload is None,
    {
        Outbound { packet: Packet::event(self.ns.path.clone(), event, data), payload: None }
    }

    /// The path of the namespace.
    pub fn ns(&self) -> (path: &String)
        ensures
            *path == self@.namespace.path,
    {
        &self.ns.path
    }

    /// Whether an id is left for one more request that asks for an acknowledgement.
    pub fn ack_ids_left(&self) -> (left: bool)
        ensures
            left == (self@.issued < i64::MAX),
    {
        self.ack_counter < i64::MAX
    }

    /// Takes note that `packet` waits for an acknowledgement: gives it the next id, which
    /// no request of this connection had before, and keeps the sending end of the channel
    /// on which the acknowledgement will arrive. What comes back is to be sent, and
    /// `reply` to be awaited for `timeout`; `ack_result` takes how that ended.
    pub fn send_with_ack(
        &mut self,
        packet: Packet,
        payload: Option<Vec<Vec<u8>>>,
        timeout: Option<Duration>,
    ) -> (pending: PendingAck)
        requires
            old(self).wf(),
            old(self)@.issued < i64::MAX,
        ensures
            final(self).wf(),
            pending.id == old(self)@.next_id(),
            !old(self)@.pending.contains_key(pending.id),
            final(self)@.pending.contains_key(pending.id),
            ends_of_one_channel(final(self)@.pending[pending.id], pending.reply),
            final(self)@ == (SocketView::<A, H> {
                pending: old(self)@.pending.insert(
                    pending.id,
                    final(self)@.pending[pending.id],
                ),
                issued: pending.id as int,
                ..old(self)@
            }),
            pending.out.packet@ == (PacketView {
                inner: packet@.inner.with_ack_id(pending.id),
                ns: packet.ns,
            }),
            pending.out.payload == payload,
            pending.timeout == (match timeout {
                Some(given) => given,
                None => old(self)@.ack_timeout,
            }),
    {
        let (tx, rx) = channel();
        let ack: i64 = self.ack_counter + 1;
        self.ack_counter = ack;
        self.ack_message.insert(ack, tx);
        let mut packet = packet;
        packet.inner.set_ack_id(ack);
        let timeout = match timeout {
            Some(given) => given,
            None => self.ack_timeout,
        };
        PendingAck { id: ack, out: Outbound { packet, payload }, timeout, reply: rx }
    }

    /// The event `event` with the payload `data`, asking the client of this connection to
    /// acknowledge it within the configured time.
    pub fn emit_with_ack(&mut self, event: String, data: Value) -> (pending: PendingAck)
        requires
            old(self).wf(),
            old(self)@.issued < i64::MAX,
        ensures
            final(self).wf(),
            pending.id == old(self)@.next_id(),
            !old(self)@.pending.contains_key(pending.id),
            final(self)@.pending.contains_key(pending.id),
            ends_of_one_channel(final(self)@.pending[pending.id], pending.reply),
            final(self)@ == (SocketView::<A, H> {
                pending: old(self)@.pending.insert(
                    pending.id,
                    final(self)@.pending[pending.id],
                ),
                issued: pending.id as int,
                ..old(self)@
            }),
            pending.out.packet@ == (PacketView {
                inner: PacketDataView::Event(event, data, Some(pending.id)),
                ns: old(self)@.namespace.path,
            }),
            pending.out.payload is None,
            pending.timeout == old(self)@.ack_timeout,
    {
        let packet = Packet::event(self.ns.path.clone(), event, data);
        self.send_with_ack(packet, None, None)
    }

    /// Ends the wait for the acknowledgement `id`: whatever became of it, it is awaited no
    /// longer. The result is what the caller of the request is told.
    pub fn ack_result<T>(&mut self, id: i64, wait: AckWait<T>) -> (result: Result<
        AckResponse<T>,
        AckError,
    >)
        ensures
            old(self).wf() ==> final(self).wf(),
            final(self)@ == (SocketView::<A, H> {
                pending: old(self)@.pending.remove(id),
                ..old(self)@
            }),
            result == wait.outcome(),
    {
        self.ack_message.remove(&id);
        wait.into_result()
    }

    /// The acknowledgement, with the payload `data`, of the event that came under `ack_id`.
    pub fn send_ack(&self, ack_id: i64, data: Value) -> (out: Outbound)
        ensures
            out.packet@ == PacketView::ack(self@.namespace.path, data, ack_id),
            out.payload is None,
    {
        Outbound { packet: Packet::ack(self.ns.path.clone(), data, ack_id), payload: None }
    }

    /// The acknowledgement, with the payload `data` and the frames `bin`, of the event that
    /// came under `ack_id`.
    pub fn send_bin_ack(&self, ack_id: i64, data: Value, bin: Vec<Vec<u8>>) -> (out: Outbound)
        ensures
            out.packet@ == PacketView::bin_ack(self@.namespace.path, data, bin.len(), ack_id),
            out.payload == Some(bin),
    {
        Outbound {
            packet: Packet::bin_ack(self.ns.path.clone(), data, bin.len(), ack_id),
            payload: Some(bin),
        }
    }

    /// What follows when a callback has ended. Its failure is handed on, and then nothing
    /// is acknowledged. Where it succeeded and the event asked for an acknowledgement,
    /// that acknowledgement is to be sent: it carries the payload and the frames of the
    /// answer, and the object without members where the answer has no payload.
    pub fn handled(&self, ack_id: Option<i64>, outcome: Result<Ack<Value>, Error>) -> (next: Result<
        Option<Outbound>,
        Error,
    >)
        ensures
            match outcome {
                Err(e) => next == Err::<Option<Outbound>, Error>(e),
                Ok(ack) => match ack_id {
                    None => next == Ok::<Option<Outbound>, Error>(None),
                    Some(id) => {
                        &&& next matches Ok(Some(out))
                        &&& out.acknowledges(self@.namespace.path, id, ack)
                    },
                },
            },
    {
        match outcome {
            Err(e) => Err(e),
            Ok(ack) => match ack_id {
                None => Ok(None),
                Some(id) => Ok(
                    Some(
                        match ack {
                            Ack::Bin(bin) => self.send_bin_ack(id, Value::empty_object(), bin),
                            Ack::Data(data) => self.send_ack(id, data),
                            Ack::DataBin(data, bin) => self.send_bin_ack(id, data, bin),
                            Ack::Empty => self.send_ack(id, Value::empty_object()),
                        },
                    ),
                ),
            },
        }
    }

    /// Takes in a packet from the client. An event goes to the handler of its name; an
    /// acknowledgement goes to the request that waits for it.
    pub fn recv<'a>(&'a mut self, packet: PacketData) -> (next: Dispatch<'a, H>)
        ensures
            old(self).wf() ==> final(self).wf(),
            match packet {
                PacketData::Event(e, data, ack) => {
                    &&& final(self)@ == old(self)@
                    &&& next.is_for_event(old(self)@.handlers, e, data, None, ack)
                },
                PacketData::BinaryEvent(e, packet, ack) => {
                    &&& final(self)@ == old(self)@
                    &&& next.is_for_event(
                        old(self)@.handlers,
                        e,
                        packet.data,
                        Some(packet.bin),
                        ack,
                    )
                },
                PacketData::EventAck(data, ack) => {
                    &&& next is Done
                    &&& final(self)@ == (SocketView::<A, H> {
                        pending: old(self)@.pending.remove(ack),
                        ..old(self)@
                    })
                    &&& old(self)@.pending.contains_key(ack) ==> handed(
                        old(self)@.pending[ack],
                        (data, None),
                    )
                },
                PacketData::BinaryAck(packet, ack) => {
                    &&& next is Done
                    &&& final(self)@ == (SocketView::<A, H> {
                        pending: old(self)@.pending.remove(ack),
                        ..old(self)@
                    })
                    &&& old(self)@.pending.contains_key(ack) ==> handed(
                        old(self)@.pending[ack],
                        (packet.data, Some(packet.bin)),
                    )
                },
            },
    {
        match packet {
            PacketData::Event(e, data, ack) => self.recv_event(e, data, ack),
            PacketData::EventAck(data, ack) => {
                self.recv_ack(data, ack);
                Dispatch::Done
            },
            PacketData::BinaryEvent(e, packet, ack) => self.recv_bin_event(e, packet, ack),
            PacketData::BinaryAck(packet, ack) => {
                self.recv_bin_ack(packet, ack);
                Dispatch::Done
            },
        }
    }

    /// An event came in. Where no handler is registered under its name, nothing is left to
    /// do; else the handler is to be run on the payload.
    pub fn recv_event<'a>(&'a self, e: String, data: Value, ack: Option<i64>) -> (next: Dispatch<
        'a,
        H,
    >)
        ensures
            next.is_for_event(self@.handlers, e, data, None, ack),
    {
        match self.message_handlers.get(e.as_str()) {
            Some(entry) => Dispatch::Call {
                handler: &entry.handler,
                payload: entry.param.adapt(data),
                bin: None,
                ack_id: ack,
            },
            None => Dispatch::Done,
        }
    }

    /// An event with binary frames came in.
    pub fn recv_bin_event<'a>(&'a self, e: String, packet: BinaryPacket, ack: Option<i64>) -> (next:
        Dispatch<'a, H>)
        ensures
            next.is_for_event(self@.handlers, e, packet.data, Some(packet.bin), ack),
    {
        match self.message_handlers.get(e.as_str()) {
            Some(entry) => Dispatch::Call {
                handler: &entry.handler,
                payload: entry.param.adapt(packet.data),
                bin: Some(packet.bin),
                ack_id: ack,
            },
            None => Dispatch::Done,
        }
    }

    /// An acknowledgement came in. The request that waits under `ack` is handed the
    /// payload and waits no longer; where none waits, nothing happens.
    pub fn recv_ack(&mut self, data: Value, ack: i64)
        ensures
            old(self).wf() ==> final(self).wf(),
            final(self)@ == (SocketView::<A, H> {
                pending: old(self)@.pending.remove(ack),
                ..old(self)@
            }),
            old(self)@.pending.contains_key(ack) ==> handed(
                old(self)@.pending[ack],
                (data, None),
            ),
    {
        let waiter = self.ack_message.remove(&ack);
        match waiter {
            Some(tx) => deliver(tx, (data, None)),
            None => {},
        }
    }

    /// An acknowledgement with binary frames came in.
    pub fn recv_bin_ack(&mut self, packet: BinaryPacket, ack: i64)
        ensures
            old(self).wf() ==> final(self).wf(),
            final(self)@ == (SocketView::<A, H> {
                pending: old(self)@.pending.remove(ack),
                ..old(self)@
            }),
            old(self)@.pending.contains_key(ack) ==> handed(
                old(self)@.pending[ack],
                (packet.data, Some(packet.bin)),
            ),
    {
        let waiter = self.ack_message.remove(&ack);
        match waiter {
            Some(tx) => deliver(tx, (packet.data, Some(packet.bin))),
            None => {},
        }
    }

    /// Puts this connection into each of the rooms.
    pub fn join<R: RoomParam>(&self, rooms: R)
        ensures
            call_ensures(A::add_all::<R>, (&self@.namespace.adapter, self@.sid, rooms), ()),
    {
        self.ns.adapter.add_all(self.sid, rooms);
    }

    /// Takes this connection out of each of the rooms.
    pub fn leave<R: RoomParam>(&self, rooms: R)
        ensures
            call_ensures(A::del::<R>, (&self@.namespace.adapter, self@.sid, rooms), ()),
    {
        self.ns.adapter.del(self.sid, rooms);
    }

    /// Takes this connection out of every room.
    pub fn leave_all(&self)
        ensures
            call_ensures(A::del_all, (&self@.namespace.adapter, self@.sid), ()),
    {
        self.ns.adapter.del_all(self.sid);
    }

    /// Operators of this connection that select the connections in the given rooms.
    pub fn to<R: RoomParam>(&self, rooms: R) -> (ops: Operators<A>)
        ensures
            ops.wf(),
            ops@ == (OperatorsView::<A> {
                opts: BroadcastOptionsView {
                    flags: set![BroadcastFlags::Broadcast],
                    rooms: first_occurrences(rooms.rooms()),
                    except: Seq::empty(),
                    sid: self@.sid,
                },
                namespace: self@.namespace,
                binary: None,
            }),
    {
        let ops = Operators::new(share(&self.ns), self.sid).to(rooms);
        assert(Seq::<Seq<char>>::empty() + rooms.rooms() =~= rooms.rooms());
        assert(ops@.opts.flags =~= set![BroadcastFlags::Broadcast]);
        ops
    }

    /// Operators of this connection that leave out the connections in the given rooms.
    pub fn except<R: RoomParam>(&self, rooms: R) -> (ops: Operators<A>)
        ensures
            ops.wf(),
            ops@ == (OperatorsView::<A> {
                opts: BroadcastOptionsView {
                    flags: set![BroadcastFlags::Broadcast],
                    rooms: Seq::empty(),
                    except: first_occurrences(rooms.rooms()),
                    sid: self@.sid,
                },
                namespace: self@.namespace,
                binary: None,
            }),
    {
        let ops = Operators::new(share(&self.ns), self.sid).except(rooms);
        assert(Seq::<Seq<char>>::empty() + rooms.rooms() =~= rooms.rooms());
        assert(ops@.opts.flags =~= set![BroadcastFlags::Broadcast]);
        ops
    }

    /// Operators of this connection that keep the broadcast within this process.
    pub fn local(&self) -> (ops: Operators<A>)
        ensures
            ops.wf(),
            ops@ == (OperatorsView::<A> {
                opts: BroadcastOptionsView {
                    flags: set![BroadcastFlags::Local],
                    rooms: Seq::empty(),
                    except: Seq::empty(),
                    sid: self@.sid,
                },
                namespace: self@.namespace,
                binary: None,
            }),
    {
        let ops = Operators::new(share(&self.ns), self.sid).local();
        assert(ops@.opts.flags =~= set![BroadcastFlags::Local]);
        ops
    }

    /// Operators of this connection that have acknowledgements awaited for `timeout`.
    pub fn timeout(&self, timeout: Duration) -> (ops: Operators<A>)
        ensures
            ops.wf(),
            ops@ == (OperatorsView::<A> {
                opts: BroadcastOptionsView {
                    flags: set![BroadcastFlags::Timeout(timeout)],
                    rooms: Seq::empty(),
                    except: Seq::empty(),
                    sid: self@.sid,
                },
                namespace: self@.namespace,
                binary: None,
            }),
    {
        let ops = Operators::new(share(&self.ns), self.sid).timeout(timeout);
        assert(ops@.opts.flags =~= set![BroadcastFlags::Timeout(timeout)]);
        ops
    }

    /// Operators of this connection that have the binary frames go with the packet.
    pub fn bin(&self, binary: Vec<Vec<u8>>) -> (ops: Operators<A>)
        ensures
            ops.wf(),
            ops@ == (OperatorsView::<A> {
                opts: BroadcastOptionsView {
                    flags: Set::empty(),
                    rooms: Seq::empty(),
                    except: Seq::empty(),
                    sid: self@.sid,
                },
                namespace: self@.namespace,
                binary: Some(binary),
            }),
    {
        Operators::new(share(&self.ns), self.sid).bin(binary)
    }

    /// Operators of this connection that send to every other connection of the namespace.
    pub fn broadcast(&self) -> (ops: Operators<A>)
        ensures
            ops.wf(),
            ops@ == (OperatorsView::<A> {
                opts: BroadcastOptionsView {
                    flags: set![BroadcastFlags::Broadcast],
                    rooms: Seq::empty(),
                    except: Seq::empty(),
                    sid: self@.sid,
                },
                namespace: self@.namespace,
                binary: None,
            }),
    {
        let ops = Operators::new(share(&self.ns), self.sid).broadcast();
        assert(ops@.opts.flags =~= set![BroadcastFlags::Broadcast]);
        ops
    }

    /// Tears the connection down: it leaves every room, and no acknowledgement is awaited
    /// any longer. The sending ends are dropped, so that each wait ends as closed.
    pub fn disconnect(&mut self)
        ensures
            old(self).wf() ==> final(self).wf(),
            final(self)@ == (SocketView::<A, H> { pending: Map::empty(), ..old(self)@ }),
            call_ensures(A::del_all, (&old(self)@.namespace.adapter, old(self)@.sid), ()),
    {
        self.ns.adapter.del_all(self.sid);
        self.ack_message.clear();
    }
}

} // verus!
