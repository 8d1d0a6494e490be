use engineioxide::sid::Sid;
use serde_json::Value;
use socketioxide::adapter::{Adapter, BroadcastFlags, BroadcastOptions, Room};
use socketioxide::config::SocketIoConfig;
use socketioxide::errors::BroadcastError;
use socketioxide::handler::ConnectHandler;
use socketioxide::ns::Namespace;
use socketioxide::operators::{Operators, RoomParam};
use socketioxide::packet::{BinaryPacket, Packet, PacketData};
use std::borrow::Cow;
use std::cell::RefCell;
use std::str::FromStr;
use std::sync::Arc;
use std::time::Duration;

#[derive(Debug)]
enum Call {
    Broadcast(Packet, BroadcastOptions),
    BroadcastWithAck(Packet, BroadcastOptions),
    Fetch(BroadcastOptions),
    Disconnect(BroadcastOptions),
    Add(BroadcastOptions, Vec<Room>),
    Del(BroadcastOptions, Vec<Room>),
}

#[derive(Debug)]
struct Recorder {
    calls: RefCell<Vec<Call>>,
}

impl Recorder {
    fn record(&self, call: Call) {
        self.calls.borrow_mut().push(call);
    }
}

impl Adapter for Recorder {
    type Error = &'static str;
    type Socket = u8;
    type AckStream = u16;

    fn new() -> Self {
        Recorder { calls: RefCell::new(vec![]) }
    }

    fn broadcast(
        &self,
        packet: Packet,
        opts: BroadcastOptions,
    ) -> Result<(), BroadcastError<&'static str>> {
        self.record(Call::Broadcast(packet, opts));
        Ok(())
    }

    fn broadcast_with_ack(
        &self,
        packet: Packet,
        opts: BroadcastOptions,
    ) -> Result<u16, BroadcastError<&'static str>> {
        self.record(Call::BroadcastWithAck(packet, opts));
        Ok(17)
    }

    fn fetch_sockets(&self, opts: BroadcastOptions) -> Result<Vec<u8>, &'static str> {
        self.record(Call::Fetch(opts));
        Ok(vec![1, 2])
    }

    fn disconnect_socket(
        &self,
        opts: BroadcastOptions,
    ) -> Result<(), BroadcastError<&'static str>> {
        self.record(Call::Disconnect(opts));
        Err(BroadcastError::Adapter("gone"))
    }

    fn add_sockets<R: RoomParam>(
        &self,
        opts: BroadcastOptions,
        rooms: R,
    ) -> Result<(), &'static str> {
        self.record(Call::Add(opts, rooms.into_room_iter().collect()));
        Ok(())
    }

    fn del_sockets<R: RoomParam>(
        &self,
        opts: BroadcastOptions,
        rooms: R,
    ) -> Result<(), &'static str> {
        self.record(Call::Del(opts, rooms.into_room_iter().collect()));
        Err("not there")
    }
}

type TestNamespace = Namespace<Recorder, ()>;

fn namespace() -> Arc<TestNamespace> {
    Namespace::new(Cow::Borrowed("/chat"), ConnectHandler::Relay)
}

fn only_call(ns: &TestNamespace) -> Call {
    let mut calls = ns.adapter.calls.borrow_mut();
    assert_eq!(calls.len(), 1);
    calls.remove(0)
}

fn own_sid() -> Sid {
    Sid::from_str("AA9AAA0AAzAAAAHs").unwrap()
}

fn rooms(names: &[&'static str]) -> Vec<Room> {
    names.iter().map(|name| Cow::Borrowed(*name)).collect()
}

fn names<R: RoomParam>(param: R) -> Vec<String> {
    param.into_room_iter().map(|room| room.into_owned()).collect()
}

/// The options of the operators, as the adapter gets them.
fn options(
    sid: Option<Sid>,
    build: impl FnOnce(Operators<Recorder, ()>) -> Operators<Recorder, ()>,
) -> BroadcastOptions {
    let ns = namespace();
    assert_eq!(build(Operators::new(ns.clone(), sid)).sockets(), Ok(vec![1, 2]));
    match only_call(&ns) {
        Call::Fetch(opts) => opts,
        other => panic!("{:?}", other),
    }
}

#[test]
fn room_params_give_their_rooms_in_order() {
    assert_eq!(names("a"), ["a"]);
    assert_eq!(names("a".to_string()), ["a"]);
    assert_eq!(names(Cow::Borrowed("a")), ["a"]);
    assert_eq!(names(vec!["a", "b", "a"]), ["a", "b", "a"]);
    assert_eq!(names(vec!["b".to_string(), "a".to_string()]), ["b", "a"]);
    assert_eq!(names(rooms(&["c", "d"])), ["c", "d"]);
    assert_eq!(names(["x", "y"]), ["x", "y"]);
    assert_eq!(names(["x".to_string(), "z".to_string(), "y".to_string()]), ["x", "z", "y"]);
    let none: [&'static str; 0] = [];
    assert!(names(none).is_empty());
    assert!(names(Vec::<String>::new()).is_empty());
}

#[test]
fn sid_is_the_room_with_its_text() {
    assert_eq!(names(own_sid()), ["AA9AAA0AAzAAAAHs"]);
    assert_eq!(names(Sid::ZERO)[0].len(), 16);
    assert_ne!(names(Sid::ZERO), names(own_sid()));
}

#[test]
fn to_adds_rooms_and_broadcasts() {
    let opts = options(Some(own_sid()), |ops| ops.to("a").to(vec!["b", "c"]));
    assert_eq!(opts.rooms, rooms(&["a", "b", "c"]));
    assert!(opts.except.is_empty());
    assert!(opts.flags.contains(&BroadcastFlags::Broadcast));
    assert!(!opts.flags.contains(&BroadcastFlags::Local));
    assert_eq!(opts.sid, Some(own_sid()));
}

#[test]
fn within_adds_rooms_only() {
    let opts = options(Some(own_sid()), |ops| ops.within("a"));
    assert_eq!(opts.rooms, rooms(&["a"]));
    assert!(!opts.flags.contains(&BroadcastFlags::Broadcast));
}

#[test]
fn except_leaves_rooms_out_and_broadcasts() {
    let opts = options(None, |ops| ops.except(["a", "b"]));
    assert!(opts.rooms.is_empty());
    assert_eq!(opts.except, rooms(&["a", "b"]));
    assert!(opts.flags.contains(&BroadcastFlags::Broadcast));
    assert_eq!(opts.sid, None);
}

#[test]
fn local_and_broadcast_set_their_flags() {
    let opts = options(None, |ops| ops.local());
    assert!(opts.flags.contains(&BroadcastFlags::Local));
    assert!(!opts.flags.contains(&BroadcastFlags::Broadcast));
    let opts = options(None, |ops| ops.broadcast());
    assert!(opts.flags.contains(&BroadcastFlags::Broadcast));
    assert!(!opts.flags.contains(&BroadcastFlags::Local));
}

#[test]
fn is_broadcast_tells_the_flag() {
    assert!(!Operators::new(namespace(), None).is_broadcast());
    assert!(Operators::new(namespace(), None).broadcast().is_broadcast());
    assert!(Operators::new(namespace(), None).to("a").is_broadcast());
    assert!(!Operators::new(namespace(), None).within("a").local().is_broadcast());
}

#[test]
fn to_selects_rooms_but_current() {
    let opts = options(Some(own_sid()), |ops| ops.to("a").to("b"));
    assert!(opts.selects(Sid::ZERO, &rooms(&["x", "b"])));
    assert!(opts.selects(Sid::ZERO, &rooms(&["a"])));
    assert!(!opts.selects(Sid::ZERO, &rooms(&["x"])));
    assert!(!opts.selects(Sid::ZERO, &rooms(&[])));
    assert!(!opts.selects(own_sid(), &rooms(&["a"])));
}

#[test]
fn within_selects_rooms() {
    let opts = options(Some(own_sid()), |ops| ops.within("a"));
    assert!(opts.selects(own_sid(), &rooms(&["a"])));
    assert!(opts.selects(Sid::ZERO, &rooms(&["a"])));
    assert!(!opts.selects(own_sid(), &rooms(&["b"])));
}

#[test]
fn to_is_within_for_namespace() {
    let to = options(None, |ops| ops.to("a"));
    let within = options(None, |ops| ops.within("a"));
    for joined in [rooms(&["a"]), rooms(&["b"]), rooms(&[])] {
        assert_eq!(to.selects(own_sid(), &joined), within.selects(own_sid(), &joined));
    }
}

#[test]
fn except_filters_out_rooms() {
    let opts = options(Some(own_sid()), |ops| ops.broadcast().except("a"));
    assert!(opts.selects(Sid::ZERO, &rooms(&["b"])));
    assert!(!opts.selects(Sid::ZERO, &rooms(&["b", "a"])));
    assert!(!opts.selects(own_sid(), &rooms(&["b"])));
    let opts = options(Some(own_sid()), |ops| ops.within("a").except("b"));
    assert!(opts.selects(Sid::ZERO, &rooms(&["a"])));
    assert!(!opts.selects(Sid::ZERO, &rooms(&["a", "b"])));
    assert!(!opts.selects(own_sid(), &rooms(&["a"])));
}

#[test]
fn except_alone_selects_the_others() {
    let opts = options(Some(own_sid()), |ops| ops.except("a"));
    assert!(opts.selects(Sid::ZERO, &rooms(&[])));
    assert!(!opts.selects(Sid::ZERO, &rooms(&["a"])));
    assert!(!opts.selects(own_sid(), &rooms(&[])));
}

#[test]
fn broadcast_selects_all_but_current() {
    let opts = options(Some(own_sid()), |ops| ops.broadcast());
    assert!(opts.selects(Sid::ZERO, &rooms(&[])));
    assert!(opts.selects(Sid::ZERO, &rooms(&["a"])));
    assert!(!opts.selects(own_sid(), &rooms(&["a"])));
}

#[test]
fn no_operator_selects_the_current_socket() {
    let opts = options(Some(own_sid()), |ops| ops.local());
    assert!(opts.selects(own_sid(), &rooms(&["a"])));
    assert!(!opts.selects(Sid::ZERO, &rooms(&["a"])));
}

#[test]
fn local_and_timeout_select_nothing() {
    let plain = options(Some(own_sid()), |ops| ops.to("a"));
    let more = options(Some(own_sid()), |ops| {
        ops.to("a").local().timeout(Duration::from_secs(1))
    });
    for sid in [own_sid(), Sid::ZERO] {
        for joined in [rooms(&["a"]), rooms(&["b"])] {
            assert_eq!(plain.selects(sid, &joined), more.selects(sid, &joined));
        }
    }
}

#[test]
fn operators_commute() {
    let second = Duration::from_secs(1);
    let one = options(Some(own_sid()), |ops| ops.timeout(second).except("b").to("a").within("c"));
    let other = options(Some(own_sid()), |ops| ops.within("c").to("a").except("b").timeout(second));
    assert_eq!(one.flags.timeout(), other.flags.timeout());
    for sid in [own_sid(), Sid::ZERO] {
        for joined in [rooms(&["a"]), rooms(&["b", "c"]), rooms(&["c"]), rooms(&[])] {
            assert_eq!(one.selects(sid, &joined), other.selects(sid, &joined));
        }
    }
}

#[test]
fn timeout_is_the_one_that_was_set() {
    let config = SocketIoConfig {
        connect_timeout: Duration::from_secs(45),
        ack_timeout: Duration::from_secs(5),
    };
    let opts = options(None, |ops| ops.local());
    assert_eq!(opts.ack_timeout(&config), Duration::from_secs(5));
    let opts = options(None, |ops| ops.broadcast().timeout(Duration::from_millis(1500)));
    assert_eq!(opts.ack_timeout(&config), Duration::from_millis(1500));
}

#[test]
fn acknowledgements_have_a_timeout_by_default() {
    let config = SocketIoConfig::new(Duration::from_secs(45));
    assert_eq!(config.connect_timeout, Duration::from_secs(45));
    assert_eq!(config.ack_timeout, Duration::from_millis(5000));
    let opts = options(None, |ops| ops.broadcast());
    assert_eq!(opts.ack_timeout(&config), Duration::from_secs(5));
}

#[test]
fn flags_of_different_timeouts_differ() {
    let second = Duration::from_secs(1);
    let opts = options(None, |ops| ops.timeout(second).timeout(second));
    assert!(opts.flags.contains(&BroadcastFlags::Timeout(second)));
    assert!(!opts.flags.contains(&BroadcastFlags::Timeout(Duration::from_secs(2))));
    assert_eq!(opts.flags.timeout(), Some(second));
}

#[test]
fn emit_sends_event_to_namespace() {
    let ns = namespace();
    let result = Operators::new(ns.clone(), None)
        .within("a")
        .emit(Cow::Borrowed("message"), Value::from(vec![1, 2]));
    assert!(result.is_ok());
    match only_call(&ns) {
        Call::Broadcast(packet, opts) => {
            assert_eq!(packet.ns, "/chat");
            assert_eq!(
                packet.inner,
                PacketData::Event(Cow::Borrowed("message"), Value::from(vec![1, 2]), None)
            );
            assert_eq!(opts.rooms, rooms(&["a"]));
        }
        other => panic!("{:?}", other),
    }
}

#[test]
fn emitted_packet_is_complete() {
    let ns = namespace();
    let payloads = vec![vec![1, 2, 3], vec![]];
    let result = Operators::new(ns.clone(), None)
        .bin(vec![vec![9]])
        .bin(payloads.clone())
        .emit(Cow::Borrowed("file"), Value::from("name"));
    assert!(result.is_ok());
    match only_call(&ns) {
        Call::Broadcast(packet, _) => match packet.inner {
            PacketData::BinaryEvent(event, binary, ack) => {
                assert_eq!(event, "file");
                assert_eq!(ack, None);
                assert!(binary.is_complete());
                let expected =
                    BinaryPacket { data: Value::from("name"), bin: payloads, payload_count: 2 };
                assert_eq!(binary, expected);
            }
            other => panic!("{:?}", other),
        },
        other => panic!("{:?}", other),
    }
}

#[test]
fn emit_keeps_the_data() {
    let mut object = serde_json::Map::new();
    object.insert("float".to_string(), Value::from(1.5));
    object.insert("negative".to_string(), Value::from(-3));
    object.insert("large".to_string(), Value::from(u64::MAX));
    object.insert("null".to_string(), Value::Null);
    object.insert("list".to_string(), Value::from(vec![true, false]));
    let data = Value::Object(object);
    let ns = namespace();
    let ops = Operators::new(ns.clone(), None);
    assert!(ops.emit(Cow::Borrowed("e"), data.clone()).is_ok());
    match only_call(&ns) {
        Call::Broadcast(packet, _) => {
            assert_eq!(packet.inner, PacketData::Event(Cow::Borrowed("e"), data, None));
        }
        other => panic!("{:?}", other),
    }
}

#[test]
fn emit_with_ack_returns_the_acknowledgements() {
    let ns = namespace();
    let result = Operators::new(ns.clone(), Some(own_sid()))
        .broadcast()
        .emit_with_ack(Cow::Owned("ask".to_string()), Value::from(1));
    assert!(matches!(result, Ok(17)));
    match only_call(&ns) {
        Call::BroadcastWithAck(packet, opts) => {
            let expected = Packet::event(
                Cow::Borrowed("/chat"),
                Cow::Borrowed("ask"),
                Value::from(1),
            );
            assert_eq!(packet, expected);
            assert_eq!(opts.sid, Some(own_sid()));
        }
        other => panic!("{:?}", other),
    }
}

#[test]
fn failed_serialisation_emits_nothing() {
    let ns = namespace();
    let error = serde_json::from_str::<Value>("{").unwrap_err();
    let result = Operators::new(ns.clone(), None).emit_serialized(Cow::Borrowed("e"), Err(error));
    assert!(matches!(result, Err(BroadcastError::Serialize(_))));
    let error = serde_json::from_str::<Value>("[").unwrap_err();
    let result =
        Operators::new(ns.clone(), None).emit_with_ack_serialized(Cow::Borrowed("e"), Err(error));
    assert!(matches!(result, Err(BroadcastError::Serialize(_))));
    assert!(ns.adapter.calls.borrow().is_empty());
}

#[test]
fn get_packet_takes_the_payloads() {
    let mut ops = Operators::new(namespace(), None).bin(vec![vec![1]]);
    let error = serde_json::from_str::<Value>("{").unwrap_err();
    assert!(ops.get_packet(Cow::Borrowed("e"), Err(error)).is_err());
    let first = ops.get_packet(Cow::Borrowed("e"), Ok(Value::Null)).unwrap();
    assert!(matches!(first.inner, PacketData::BinaryEvent(_, _, None)));
    let second = ops.get_packet(Cow::Borrowed("e"), Ok(Value::Null)).unwrap();
    assert_eq!(second.inner, PacketData::Event(Cow::Borrowed("e"), Value::Null, None));
}

#[test]
fn disconnect_returns_what_the_adapter_returns() {
    let ns = namespace();
    let result = Operators::new(ns.clone(), None).to("a").disconnect();
    assert!(matches!(result, Err(BroadcastError::Adapter("gone"))));
    match only_call(&ns) {
        Call::Disconnect(opts) => assert_eq!(opts.rooms, rooms(&["a"])),
        other => panic!("{:?}", other),
    }
}

#[test]
fn join_and_leave_hand_the_rooms_on() {
    let ns = namespace();
    assert_eq!(Operators::new(ns.clone(), None).within("a").join(["b", "c"]), Ok(()));
    match only_call(&ns) {
        Call::Add(opts, joined) => {
            assert_eq!(opts.rooms, rooms(&["a"]));
            assert_eq!(joined, rooms(&["b", "c"]));
        }
        other => panic!("{:?}", other),
    }
    assert_eq!(Operators::new(ns.clone(), None).within("a").leave("b"), Err("not there"));
    match only_call(&ns) {
        Call::Del(opts, left) => {
            assert_eq!(opts.rooms, rooms(&["a"]));
            assert_eq!(left, rooms(&["b"]));
        }
        other => panic!("{:?}", other),
    }
}
