//! Choosing the receivers of a broadcast, one operator at a time.

use std::sync::Arc;
use std::time::Duration;
use vstd::prelude::*;
use vstd::std_specs::cmp::PartialEqSpecImpl;
use crate::adapters::{frames_announced, Adapter};
use crate::errors::Error;
use crate::ns::Namespace;
use crate::packet::{Packet, PacketView};
use crate::unique::{
    extend_unique, first_occurrences, lemma_first_occurrences_absorbs_back, names, unique,
};
use crate::value::Value;

verus! {

/// The name of a group of connections.
pub type Room = String;

/// What can name rooms: one room, a list of rooms, one label, a fixed number of labels.
pub trait RoomParam: Sized + 'static {
    /// The rooms named, in the order in which the value holds them.
    spec fn rooms(&self) -> Seq<Seq<char>>;

    /// The rooms named, as strings of their own.
    fn into_room_iter(self) -> (rooms: Vec<Room>)
        ensures
            names(rooms@) == self.rooms(),
    ;
}

impl RoomParam for Room {
    open spec fn rooms(&self) -> Seq<Seq<char>> {
        seq![self@]
    }

    fn into_room_iter(self) -> (rooms: Vec<Room>) {
        let mut rooms: Vec<Room> = Vec::new();
        rooms.push(self);
        assert(names(rooms@) =~= seq![self@]);
        rooms
    }
}

impl RoomParam for Vec<Room> {
    open spec fn rooms(&self) -> Seq<Seq<char>> {
        names(self@)
    }

    fn into_room_iter(self) -> (rooms: Vec<Room>) {
        self
    }
}

impl RoomParam for &'static str {
    open spec fn rooms(&self) -> Seq<Seq<char>> {
        seq![self@]
    }

    fn into_room_iter(self) -> (rooms: Vec<Room>) {
        let mut rooms: Vec<Room> = Vec::new();
        rooms.push(self.to_owned());
        assert(names(rooms@) =~= seq![self@]);
        rooms
    }
}

impl<const COUNT: usize> RoomParam for [&'static str; COUNT] {
    open spec fn rooms(&self) -> Seq<Seq<char>> {
        Seq::new(COUNT as nat, |i: int| self@[i]@)
    }

    fn into_room_iter(self) -> (rooms: Vec<Room>) {
        let mut rooms: Vec<Room> = Vec::new();
        let mut i: usize = 0;
        while i < COUNT
            invariant
                i <= COUNT,
                self@.len() == COUNT,
                names(rooms@) == Seq::new(i as nat, |k: int| self@[k]@),
            decreases COUNT - i,
        {
            let ghost before = names(rooms@);
            rooms.push(self[i].to_owned());
            assert(names(rooms@) =~= before.push(self@[i as int]@));
            i += 1;
            assert(names(rooms@) =~= Seq::new(i as nat, |k: int| self@[k]@));
        }
        rooms
    }
}

/// The rooms that `rooms` names, each once, in the order in which it first names them.
pub fn normalize<R: RoomParam>(rooms: R) -> (normal: Vec<Room>)
    ensures
        names(normal@) == first_occurrences(rooms.rooms()),
{
    unique(rooms.into_room_iter())
}

/// `Duration::eq`, the `==` of two durations: whether they last equally long. A duration
/// is no more than its length, so two of equal length are one value.
#[verifier::external_body]
fn same_duration(a: &Duration, b: &Duration) -> (same: bool)
    ensures
        same == (*a == *b),
{
    a == b
}

/// How a broadcast is to be delivered.
#[derive(Debug, Clone, Copy, Eq, Hash)]
pub enum BroadcastFlags {
    /// Only to connections of this process.
    Local,
    /// To the other connections of the namespace, not back to the sender alone.
    Broadcast,
    /// Acknowledgements are awaited this long, in place of the configured time.
    Timeout(Duration),
}

impl PartialEq for BroadcastFlags {
    fn eq(&self, other: &Self) -> (same: bool) {
        match *self {
            BroadcastFlags::Local => match *other {
                BroadcastFlags::Local => true,
                _ => false,
            },
            BroadcastFlags::Broadcast => match *other {
                BroadcastFlags::Broadcast => true,
                _ => false,
            },
            BroadcastFlags::Timeout(a) => match *other {
                BroadcastFlags::Timeout(b) => same_duration(&a, &b),
                _ => false,
            },
        }
    }
}

impl PartialEqSpecImpl for BroadcastFlags {
    open spec fn obeys_eq_spec() -> bool {
        true
    }

    open spec fn eq_spec(&self, other: &Self) -> bool {
        *self == *other
    }
}

/// Whom a broadcast goes to and how.
#[derive(Debug, PartialEq, Eq)]
pub struct BroadcastOptions {
    /// The flags that were set, each once.
    pub flags: Vec<BroadcastFlags>,
    /// The rooms to deliver to, each once, in the order in which they were first named.
    pub rooms: Vec<Room>,
    /// The rooms to leave out, each once, in the order in which they were first named.
    pub except: Vec<Room>,
    /// The connection that the broadcast comes from.
    pub sid: i64,
}

pub struct BroadcastOptionsView {
    pub flags: Set<BroadcastFlags>,
    pub rooms: Seq<Seq<char>>,
    pub except: Seq<Seq<char>>,
    pub sid: i64,
}

impl View for BroadcastOptions {
    type V = BroadcastOptionsView;

    open spec fn view(&self) -> BroadcastOptionsView {
        BroadcastOptionsView {
            flags: self.flags@.to_set(),
            rooms: names(self.rooms@),
            except: names(self.except@),
            sid: self.sid,
        }
    }
}

impl BroadcastOptions {
    /// Nothing stands twice: no flag, no room to deliver to, no room to leave out.
    pub open spec fn wf(&self) -> bool {
        &&& self.flags@.no_duplicates()
        &&& names(self.rooms@).no_duplicates()
        &&& names(self.except@).no_duplicates()
    }

    /// The options of a broadcast from the connection `sid` on which nothing is chosen yet.
    pub fn new(sid: i64) -> (opts: Self)
        ensures
            opts.wf(),
            opts@ == (BroadcastOptionsView {
                flags: Set::empty(),
                rooms: Seq::empty(),
                except: Seq::empty(),
                sid,
            }),
    {
        let opts = Self { flags: Vec::new(), rooms: Vec::new(), except: Vec::new(), sid };
        assert(opts@.flags =~= Set::empty());
        assert(opts@.rooms =~= Seq::empty());
        assert(opts@.except =~= Seq::empty());
        opts
    }

    /// Whether the flag is set.
    pub fn has_flag(&self, flag: BroadcastFlags) -> (found: bool)
        ensures
            found == self@.flags.contains(flag),
    {
        let mut i: usize = 0;
        while i < self.flags.len()
            invariant
                i <= self.flags.len(),
                forall|k: int| 0 <= k < i ==> self.flags@[k] != flag,
            decreases self.flags.len() - i,
        {
            if self.flags[i] == flag {
                assert(self.flags@[i as int] == flag);
                return true;
            }
            i += 1;
        }
        false
    }

    /// Sets a flag; one that is set already stays set once.
    pub fn insert_flag(&mut self, flag: BroadcastFlags)
        ensures
            old(self).wf() ==> final(self).wf(),
            final(self)@ == (BroadcastOptionsView {
                flags: old(self)@.flags.insert(flag),
                ..old(self)@
            }),
    {
        if !self.has_flag(flag) {
            proof {
                old(self).flags@.lemma_push_to_set_commute(flag);
            }
            self.flags.push(flag);
        } else {
            assert(self@.flags =~= old(self)@.flags.insert(flag));
        }
    }
}

/// Operators select the receivers of a packet, or set up the packet to come.
pub struct Operators<A: Adapter> {
    opts: BroadcastOptions,
    ns: Arc<Namespace<A>>,
    binary: Option<Vec<Vec<u8>>>,
}

pub struct OperatorsView<A: Adapter> {
    /// What was chosen so far.
    pub opts: BroadcastOptionsView,
    /// The namespace that the broadcast goes into.
    pub namespace: Namespace<A>,
    /// The binary frames to go with the packet, if any were given.
    pub binary: Option<Vec<Vec<u8>>>,
}

impl<A: Adapter> View for Operators<A> {
    type V = OperatorsView<A>;

    closed spec fn view(&self) -> OperatorsView<A> {
        OperatorsView { opts: self.opts@, namespace: *self.ns, binary: self.binary }
    }
}

impl<A: Adapter> Operators<A> {
    /// The options hold nothing twice.
    pub closed spec fn wf(&self) -> bool {
        self.opts.wf()
    }

    /// The packet that `emit` and `emit_with_ack` make of an event: it announces the
    /// frames where frames were given, however few, and is a plain event where none were.
    pub open spec fn packet(&self, event: String, data: Value) -> PacketView {
        match self@.binary {
            Some(frames) => PacketView::bin_event(
                self@.namespace.path,
                event,
                data,
                frames.len(),
            ),
            None => PacketView::event(self@.namespace.path, event, data),
        }
    }

    /// Operators of the connection `sid` of the namespace, with nothing chosen yet.
    pub fn new(ns: Arc<Namespace<A>>, sid: i64) -> (ops: Self)
        ensures
            ops.wf(),
            ops@ == (OperatorsView::<A> {
                opts: BroadcastOptionsView {
                    flags: Set::empty(),
                    rooms: Seq::empty(),
                    except: Seq::empty(),
                    sid,
                },
                namespace: *ns,
                binary: None,
            }),
    {
        Self { opts: BroadcastOptions::new(sid), ns, binary: None }
    }

    /// Selects the connections in the given rooms, besides those selected before, and not
    /// the sender. A room that was named before is not named again.
    pub fn to<R: RoomParam>(self, rooms: R) -> (ops: Self)
        requires
            self.wf(),
        ensures
            ops.wf(),
            ops@ == (OperatorsView::<A> {
                opts: BroadcastOptionsView {
                    rooms: first_occurrences(self@.opts.rooms + rooms.rooms()),
                    flags: self@.opts.flags.insert(BroadcastFlags::Broadcast),
                    ..self@.opts
                },
                ..self@
            }),
    {
        let Operators { mut opts, ns, binary } = self;
        proof {
            lemma_first_occurrences_absorbs_back(names(opts.rooms@), rooms.rooms());
        }
        extend_unique(&mut opts.rooms, &normalize(rooms));
        opts.insert_flag(BroadcastFlags::Broadcast);
        Operators { opts, ns, binary }
    }

    /// Leaves out the connections in the given rooms. A room that was named before is not
    /// named again.
    pub fn except<R: RoomParam>(self, rooms: R) -> (ops: Self)
        requires
            self.wf(),
        ensures
            ops.wf(),
            ops@ == (OperatorsView::<A> {
                opts: BroadcastOptionsView {
                    except: first_occurrences(self@.opts.except + rooms.rooms()),
                    flags: self@.opts.flags.insert(BroadcastFlags::Broadcast),
                    ..self@.opts
                },
                ..self@
            }),
    {
        let Operators { mut opts, ns, binary } = self;
        proof {
            lemma_first_occurrences_absorbs_back(names(opts.except@), rooms.rooms());
        }
        extend_unique(&mut opts.except, &normalize(rooms));
        opts.insert_flag(BroadcastFlags::Broadcast);
        Operators { opts, ns, binary }
    }

    /// Keeps the broadcast within this process.
    pub fn local(self) -> (ops: Self)
        ensures
            self.wf() ==> ops.wf(),
            ops@ == (OperatorsView::<A> {
                opts: BroadcastOptionsView {
                    flags: self@.opts.flags.insert(BroadcastFlags::Local),
                    ..self@.opts
                },
                ..self@
            }),
    {
        let Operators { mut opts, ns, binary } = self;
        opts.insert_flag(BroadcastFlags::Local);
        Operators { opts, ns, binary }
    }

    /// Sends to every connection of the namespace but the sender.
    pub fn broadcast(self) -> (ops: Self)
        ensures
            self.wf() ==> ops.wf(),
            ops@ == (OperatorsView::<A> {
                opts: BroadcastOptionsView {
                    flags: self@.opts.flags.insert(BroadcastFlags::Broadcast),
                    ..self@.opts
                },
                ..self@
            }),
    {
        let Operators { mut opts, ns, binary } = self;
        opts.insert_flag(BroadcastFlags::Broadcast);
        Operators { opts, ns, binary }
    }

    /// Has acknowledgements awaited for `timeout`, in place of the configured time.
    pub fn timeout(self, timeout: Duration) -> (ops: Self)
        ensures
            self.wf() ==> ops.wf(),
            ops@ == (OperatorsView::<A> {
                opts: BroadcastOptionsView {
                    flags: self@.opts.flags.insert(BroadcastFlags::Timeout(timeout)),
                    ..self@.opts
                },
                ..self@
            }),
    {
        let Operators { mut opts, ns, binary } = self;
        opts.insert_flag(BroadcastFlags::Timeout(timeout));
        Operators { opts, ns, binary }
    }

    /// Has the binary frames go with the packet, in place of any given before.
    pub fn bin(self, binary: Vec<Vec<u8>>) -> (ops: Self)
        ensures
            self.wf() ==> ops.wf(),
            ops@ == (OperatorsView::<A> { binary: Some(binary), ..self@ }),
    {
        let Operators { opts, ns, binary: _ } = self;
        Operators { opts, ns, binary: Some(binary) }
    }

    /// Whether `outcome` is an answer of the adapter's `broadcast` to this request: the
    /// packet of the event, the frames given, and the options chosen.
    pub open spec fn broadcast_answers(
        &self,
        event: String,
        data: Value,
        outcome: Result<(), Error>,
    ) -> bool {
        exists|packet: Packet, opts: BroadcastOptions|
            {
                &&& packet@ == self.packet(event, data)
                &&& opts@ == self@.opts
                &&& opts.wf()
                &&& #[trigger] call_ensures(
                    A::broadcast,
                    (&self@.namespace.adapter, packet, self@.binary, opts),
                    outcome,
                )
            }
    }

    /// Whether `outcome` is an answer of the adapter's `broadcast_with_ack` to this
    /// request: the packet of the event, the frames given, and the options chosen.
    pub open spec fn broadcast_with_ack_answers(
        &self,
        event: String,
        data: Value,
        outcome: A::AckStream,
    ) -> bool {
        exists|packet: Packet, opts: BroadcastOptions|
            {
                &&& packet@ == self.packet(event, data)
                &&& opts@ == self@.opts
                &&& opts.wf()
                &&& #[trigger] call_ensures(
                    A::broadcast_with_ack,
                    (&self@.namespace.adapter, packet, self@.binary, opts),
                    outcome,
                )
            }
    }

    /// Sends the event to the connections selected, through the adapter of the namespace,
    /// and waits for no reply. The adapter is called once, and its answer is handed back.
    pub fn emit(self, event: String, data: Value) -> (outcome: Result<(), Error>)
        requires
            self.wf(),
        ensures
            self.broadcast_answers(event, data, outcome),
    {
        let packet = self.get_packet(event, data);
        let Operators { opts, ns, binary } = self;
        ns.adapter.broadcast(packet, binary, opts)
    }

    /// Sends the event as `emit` does, and hands back the acknowledgements to come, as the
    /// adapter gives them.
    pub fn emit_with_ack(self, event: String, data: Value) -> (outcome: A::AckStream)
        requires
            self.wf(),
        ensures
            self.broadcast_with_ack_answers(event, data, outcome),
    {
        let packet = self.get_packet(event, data);
        let Operators { opts, ns, binary } = self;
        ns.adapter.broadcast_with_ack(packet, binary, opts)
    }

    /// The packet of an event with the payload `data`.
    pub fn get_packet(&self, event: String, data: Value) -> (packet: Packet)
        ensures
            packet@ == self.packet(event, data),
            frames_announced(packet@, self@.binary),
    {
        match &self.binary {
            Some(bin) => Packet::bin_event(self.ns.path.clone(), event, data, bin.len()),
            None => Packet::event(self.ns.path.clone(), event, data),
        }
    }
}

} // verus!
