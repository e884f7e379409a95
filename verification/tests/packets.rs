use socketio_server::packet::{BinaryPacket, Packet, PacketData};
use socketio_server::value::{Number, Value};

fn text(s: &str) -> Value {
    Value::String(s.to_string())
}

#[test]
fn empty_object_has_no_members() {
    assert_eq!(Value::empty_object(), Value::Object(Vec::new()));
}

#[test]
fn unwrap_single_takes_the_item_of_a_list_of_one() {
    assert_eq!(Value::Array(vec![text("x")]).unwrap_single(), text("x"));
}

#[test]
fn unwrap_single_takes_one_level_only() {
    let inner = Value::Array(vec![Value::Bool(true)]);
    assert_eq!(
        Value::Array(vec![inner]).unwrap_single(),
        Value::Array(vec![Value::Bool(true)])
    );
}

#[test]
fn unwrap_single_leaves_longer_lists() {
    assert_eq!(
        Value::Array(vec![text("x"), text("y")]).unwrap_single(),
        Value::Array(vec![text("x"), text("y")])
    );
}

#[test]
fn unwrap_single_leaves_the_empty_list() {
    assert_eq!(Value::Array(Vec::new()).unwrap_single(), Value::Array(Vec::new()));
}

#[test]
fn unwrap_single_leaves_what_is_no_list() {
    assert_eq!(Value::Null.unwrap_single(), Value::Null);
    assert_eq!(
        Value::Number(Number::PosInt(3)).unwrap_single(),
        Value::Number(Number::PosInt(3))
    );
    assert_eq!(
        Value::Object(vec![("k".to_string(), Value::Null)]).unwrap_single(),
        Value::Object(vec![("k".to_string(), Value::Null)])
    );
}

#[test]
fn event_packet_asks_for_no_acknowledgement() {
    let p = Packet::event("/chat".to_string(), "hello".to_string(), text("x"));
    assert_eq!(p.ns, "/chat");
    assert_eq!(p.inner, PacketData::Event("hello".to_string(), text("x"), None));
}

#[test]
fn bin_event_packet_announces_its_frames() {
    let p = Packet::bin_event("/".to_string(), "file".to_string(), Value::Null, 2);
    assert_eq!(p.ns, "/");
    assert_eq!(
        p.inner,
        PacketData::BinaryEvent(
            "file".to_string(),
            BinaryPacket { data: Value::Null, bin: Vec::new(), payload_count: 2 },
            None
        )
    );
}

#[test]
fn ack_packet_carries_the_id() {
    let p = Packet::ack("/".to_string(), text("ok"), 12);
    assert_eq!(p.ns, "/");
    assert_eq!(p.inner, PacketData::EventAck(text("ok"), 12));
}

#[test]
fn bin_ack_packet_carries_id_and_count() {
    let p = Packet::bin_ack("/n".to_string(), text("ok"), 3, 5);
    assert_eq!(p.ns, "/n");
    assert_eq!(
        p.inner,
        PacketData::BinaryAck(
            BinaryPacket { data: text("ok"), bin: Vec::new(), payload_count: 3 },
            5
        )
    );
}

#[test]
fn outgoing_binary_packet_holds_no_frames() {
    let p = BinaryPacket::outgoing(text("d"), 4);
    assert_eq!(p, BinaryPacket { data: text("d"), bin: Vec::new(), payload_count: 4 });
}

#[test]
fn set_ack_id_stamps_an_event() {
    let mut p = PacketData::Event("e".to_string(), Value::Null, None);
    p.set_ack_id(7);
    assert_eq!(p, PacketData::Event("e".to_string(), Value::Null, Some(7)));
}

#[test]
fn set_ack_id_replaces_an_earlier_id() {
    let mut p = PacketData::Event("e".to_string(), Value::Null, Some(1));
    p.set_ack_id(2);
    assert_eq!(p, PacketData::Event("e".to_string(), Value::Null, Some(2)));
}

#[test]
fn set_ack_id_stamps_a_binary_event() {
    let mut p = PacketData::BinaryEvent("e".to_string(), BinaryPacket::outgoing(Value::Null, 1), None);
    p.set_ack_id(9);
    assert_eq!(
        p,
        PacketData::BinaryEvent("e".to_string(), BinaryPacket::outgoing(Value::Null, 1), Some(9))
    );
}

#[test]
fn set_ack_id_leaves_acknowledgements() {
    let mut a = PacketData::EventAck(Value::Null, 3);
    a.set_ack_id(9);
    assert_eq!(a, PacketData::EventAck(Value::Null, 3));
    let mut b = PacketData::BinaryAck(BinaryPacket::outgoing(Value::Null, 0), 4);
    b.set_ack_id(9);
    assert_eq!(b, PacketData::BinaryAck(BinaryPacket::outgoing(Value::Null, 0), 4));
}
