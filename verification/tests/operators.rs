use std::cell::RefCell;
use std::sync::Arc;
use std::time::Duration;

use socketio_server::adapters::Adapter;
use socketio_server::errors::{AckError, Error};
use socketio_server::ns::Namespace;
use socketio_server::operators::{BroadcastFlags, BroadcastOptions, Operators, RoomParam};
use socketio_server::packet::{BinaryPacket, Packet, PacketData};
use socketio_server::socket::AckResponse;
use socketio_server::value::Value;

struct Sent {
    packet: Packet,
    binary: Option<Vec<Vec<u8>>>,
    opts: BroadcastOptions,
}

struct Recorder {
    sent: RefCell<Vec<Sent>>,
    refuse: bool,
    receivers: usize,
}

impl Adapter for Recorder {
    type AckStream = Vec<Result<AckResponse<Value>, AckError>>;

    fn add_all<R: RoomParam>(&self, _sid: i64, _rooms: R) {}

    fn del<R: RoomParam>(&self, _sid: i64, _rooms: R) {}

    fn del_all(&self, _sid: i64) {}

    fn broadcast(
        &self,
        packet: Packet,
        binary: Option<Vec<Vec<u8>>>,
        opts: BroadcastOptions,
    ) -> Result<(), Error> {
        self.sent.borrow_mut().push(Sent { packet, binary, opts });
        if self.refuse {
            Err(Error::Transport("down".to_string()))
        } else {
            Ok(())
        }
    }

    fn broadcast_with_ack(
        &self,
        packet: Packet,
        binary: Option<Vec<Vec<u8>>>,
        opts: BroadcastOptions,
    ) -> Self::AckStream {
        self.sent.borrow_mut().push(Sent { packet, binary, opts });
        let mut outcomes = Vec::new();
        for i in 0..self.receivers {
            if i % 2 == 0 {
                outcomes.push(Ok((Value::Bool(true), None)));
            } else {
                outcomes.push(Err(AckError::Timeout));
            }
        }
        outcomes
    }
}

fn namespace(path: &str, refuse: bool, receivers: usize) -> Arc<Namespace<Recorder>> {
    Arc::new(Namespace {
        path: path.to_string(),
        adapter: Recorder { sent: RefCell::new(Vec::new()), refuse, receivers },
    })
}

fn strings(items: &[&str]) -> Vec<String> {
    items.iter().map(|s| s.to_string()).collect()
}

fn emitted(ns: &Arc<Namespace<Recorder>>) -> Sent {
    let mut sent = ns.adapter.sent.borrow_mut();
    assert_eq!(sent.len(), 1);
    sent.pop().unwrap()
}

#[test]
fn new_options_choose_nothing() {
    let opts = BroadcastOptions::new(42);
    assert_eq!(opts.sid, 42);
    assert!(opts.flags.is_empty());
    assert!(opts.rooms.is_empty());
    assert!(opts.except.is_empty());
}

#[test]
fn insert_flag_sets_a_flag_once() {
    let mut opts = BroadcastOptions::new(1);
    assert!(!opts.has_flag(BroadcastFlags::Local));
    opts.insert_flag(BroadcastFlags::Local);
    opts.insert_flag(BroadcastFlags::Local);
    assert_eq!(opts.flags, vec![BroadcastFlags::Local]);
    assert!(opts.has_flag(BroadcastFlags::Local));
    assert!(!opts.has_flag(BroadcastFlags::Broadcast));
}

#[test]
fn flags_differ_by_kind_and_by_duration() {
    assert_eq!(BroadcastFlags::Local, BroadcastFlags::Local);
    assert_ne!(BroadcastFlags::Local, BroadcastFlags::Broadcast);
    assert_eq!(
        BroadcastFlags::Timeout(Duration::from_millis(1000)),
        BroadcastFlags::Timeout(Duration::from_secs(1))
    );
    assert_ne!(
        BroadcastFlags::Timeout(Duration::from_secs(1)),
        BroadcastFlags::Timeout(Duration::from_secs(2))
    );
    assert_ne!(BroadcastFlags::Timeout(Duration::from_secs(1)), BroadcastFlags::Local);
}

#[test]
fn to_with_repeated_rooms_is_to_in_turn() {
    let at_once = namespace("/", false, 0);
    Operators::new(at_once.clone(), 1)
        .to(["a", "a", "b"])
        .emit("e".to_string(), Value::Null)
        .unwrap();
    let in_turn = namespace("/", false, 0);
    Operators::new(in_turn.clone(), 1)
        .to("a")
        .to("b")
        .emit("e".to_string(), Value::Null)
        .unwrap();
    let first = emitted(&at_once);
    let second = emitted(&in_turn);
    assert_eq!(first.opts.rooms, strings(&["a", "b"]));
    assert_eq!(second.opts.rooms, strings(&["a", "b"]));
    assert_eq!(first.opts, second.opts);
}

#[test]
fn to_names_no_room_twice_across_calls() {
    let ns = namespace("/", false, 0);
    Operators::new(ns.clone(), 1)
        .to("room1")
        .to(["room2", "room1", "room3"])
        .to(vec!["room3".to_string(), "room4".to_string()])
        .emit("test".to_string(), Value::Null)
        .unwrap();
    let sent = emitted(&ns);
    assert_eq!(sent.opts.rooms, strings(&["room1", "room2", "room3", "room4"]));
    assert_eq!(sent.opts.flags, vec![BroadcastFlags::Broadcast]);
    assert!(sent.opts.except.is_empty());
    assert_eq!(sent.opts.sid, 1);
}

#[test]
fn except_names_no_room_twice_and_implies_broadcast() {
    let ns = namespace("/", false, 0);
    Operators::new(ns.clone(), 8)
        .except(["x", "y", "x"])
        .except("y")
        .emit("test".to_string(), Value::Null)
        .unwrap();
    let sent = emitted(&ns);
    assert_eq!(sent.opts.except, strings(&["x", "y"]));
    assert!(sent.opts.rooms.is_empty());
    assert_eq!(sent.opts.flags, vec![BroadcastFlags::Broadcast]);
}

#[test]
fn a_room_may_be_both_target_and_exception() {
    let ns = namespace("/", false, 0);
    Operators::new(ns.clone(), 8)
        .to("a")
        .except("a")
        .emit("test".to_string(), Value::Null)
        .unwrap();
    let sent = emitted(&ns);
    assert_eq!(sent.opts.rooms, strings(&["a"]));
    assert_eq!(sent.opts.except, strings(&["a"]));
}

#[test]
fn local_sets_local_only() {
    let ns = namespace("/", false, 0);
    Operators::new(ns.clone(), 2).local().emit("e".to_string(), Value::Null).unwrap();
    let sent = emitted(&ns);
    assert_eq!(sent.opts.flags, vec![BroadcastFlags::Local]);
}

#[test]
fn broadcast_sets_broadcast_without_rooms() {
    let ns = namespace("/", false, 0);
    Operators::new(ns.clone(), 2)
        .broadcast()
        .broadcast()
        .emit("e".to_string(), Value::Null)
        .unwrap();
    let sent = emitted(&ns);
    assert_eq!(sent.opts.flags, vec![BroadcastFlags::Broadcast]);
    assert!(sent.opts.rooms.is_empty());
}

#[test]
fn timeout_sets_the_given_duration() {
    let ns = namespace("/", false, 0);
    Operators::new(ns.clone(), 2)
        .timeout(Duration::from_secs(3))
        .timeout(Duration::from_millis(3000))
        .emit("e".to_string(), Value::Null)
        .unwrap();
    let sent = emitted(&ns);
    assert_eq!(sent.opts.flags, vec![BroadcastFlags::Timeout(Duration::from_secs(3))]);
}

#[test]
fn flags_of_a_chain_are_each_set_once() {
    let ns = namespace("/", false, 0);
    Operators::new(ns.clone(), 2)
        .local()
        .to("a")
        .except("b")
        .local()
        .emit("e".to_string(), Value::Null)
        .unwrap();
    let sent = emitted(&ns);
    assert_eq!(sent.opts.flags, vec![BroadcastFlags::Local, BroadcastFlags::Broadcast]);
}

#[test]
fn emit_without_frames_hands_a_plain_event() {
    let ns = namespace("/chat", false, 0);
    let outcome = Operators::new(ns.clone(), 5)
        .to("a")
        .emit("hello".to_string(), Value::String("world".to_string()));
    assert_eq!(outcome, Ok(()));
    let sent = emitted(&ns);
    assert_eq!(sent.packet.ns, "/chat");
    assert_eq!(
        sent.packet.inner,
        PacketData::Event("hello".to_string(), Value::String("world".to_string()), None)
    );
    assert_eq!(sent.binary, None);
}

#[test]
fn emit_with_frames_hands_a_binary_event_with_their_count() {
    let ns = namespace("/chat", false, 0);
    Operators::new(ns.clone(), 5)
        .bin(vec![vec![1, 2], vec![3], vec![]])
        .emit("file".to_string(), Value::Null)
        .unwrap();
    let sent = emitted(&ns);
    assert_eq!(
        sent.packet.inner,
        PacketData::BinaryEvent(
            "file".to_string(),
            BinaryPacket { data: Value::Null, bin: Vec::new(), payload_count: 3 },
            None
        )
    );
    assert_eq!(sent.binary, Some(vec![vec![1, 2], vec![3], vec![]]));
}

#[test]
fn emit_with_no_frames_given_is_still_binary() {
    let ns = namespace("/", false, 0);
    Operators::new(ns.clone(), 5).bin(Vec::new()).emit("e".to_string(), Value::Null).unwrap();
    let sent = emitted(&ns);
    assert_eq!(
        sent.packet.inner,
        PacketData::BinaryEvent(
            "e".to_string(),
            BinaryPacket { data: Value::Null, bin: Vec::new(), payload_count: 0 },
            None
        )
    );
    assert_eq!(sent.binary, Some(Vec::new()));
}

#[test]
fn bin_replaces_frames_given_before() {
    let ns = namespace("/", false, 0);
    Operators::new(ns.clone(), 5)
        .bin(vec![vec![1]])
        .bin(vec![vec![2], vec![3]])
        .emit("e".to_string(), Value::Null)
        .unwrap();
    let sent = emitted(&ns);
    assert_eq!(sent.binary, Some(vec![vec![2], vec![3]]));
}

#[test]
fn emit_hands_on_the_failure_of_the_adapter() {
    let ns = namespace("/", true, 0);
    let outcome = Operators::new(ns.clone(), 5).emit("e".to_string(), Value::Null);
    assert_eq!(outcome, Err(Error::Transport("down".to_string())));
    assert_eq!(ns.adapter.sent.borrow().len(), 1);
}

#[test]
fn emit_with_ack_hands_back_one_outcome_for_each_receiver() {
    let ns = namespace("/", false, 3);
    let outcomes = Operators::new(ns.clone(), 5)
        .to(["a", "b"])
        .emit_with_ack("e".to_string(), Value::Null);
    assert_eq!(
        outcomes,
        vec![
            Ok((Value::Bool(true), None)),
            Err(AckError::Timeout),
            Ok((Value::Bool(true), None)),
        ]
    );
    let sent = emitted(&ns);
    assert_eq!(sent.opts.rooms, strings(&["a", "b"]));
    assert_eq!(sent.packet.inner, PacketData::Event("e".to_string(), Value::Null, None));
}

#[test]
fn emit_with_ack_to_nobody_hands_back_nothing() {
    let ns = namespace("/", false, 0);
    let outcomes = Operators::new(ns.clone(), 5).emit_with_ack("e".to_string(), Value::Null);
    assert!(outcomes.is_empty());
}

#[test]
fn get_packet_does_not_send() {
    let ns = namespace("/n", false, 0);
    let ops = Operators::new(ns.clone(), 5).bin(vec![vec![9]]);
    let packet = ops.get_packet("e".to_string(), Value::Bool(false));
    assert_eq!(packet.ns, "/n");
    assert_eq!(
        packet.inner,
        PacketData::BinaryEvent(
            "e".to_string(),
            BinaryPacket { data: Value::Bool(false), bin: Vec::new(), payload_count: 1 },
            None
        )
    );
    assert!(ns.adapter.sent.borrow().is_empty());
}

#[test]
fn timeouts_of_different_length_are_both_set() {
    let ns = namespace("/", false, 0);
    Operators::new(ns.clone(), 2)
        .timeout(Duration::from_secs(1))
        .timeout(Duration::from_secs(2))
        .timeout(Duration::from_secs(1))
        .emit("e".to_string(), Value::Null)
        .unwrap();
    let sent = emitted(&ns);
    assert_eq!(
        sent.opts.flags,
        vec![
            BroadcastFlags::Timeout(Duration::from_secs(1)),
            BroadcastFlags::Timeout(Duration::from_secs(2)),
        ]
    );
}

#[test]
fn operators_carry_the_sender() {
    let ns = namespace("/", false, 0);
    Operators::new(ns.clone(), -7).emit("e".to_string(), Value::Null).unwrap();
    let sent = emitted(&ns);
    assert_eq!(sent.opts.sid, -7);
    assert!(sent.opts.flags.is_empty());
    assert!(sent.opts.rooms.is_empty());
    assert!(sent.opts.except.is_empty());
}
