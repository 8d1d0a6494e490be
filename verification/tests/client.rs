use engineioxide::sid::Sid;
use serde_json::Value;
use socketioxide::adapter::{Adapter, BroadcastOptions};
use socketioxide::client::{
    apply_payload_on_packet, close_reason, connect_timeout_reason, sock_connected, Client,
    ConnectAction, MessageAction, ProtocolVersion, SocketData, Visit,
};
use socketioxide::config::SocketIoConfig;
use socketioxide::errors::{BroadcastError, DisconnectReason, NamespaceError};
use socketioxide::handler::ConnectHandler;
use socketioxide::layer::SocketIoLayer;
use socketioxide::operators::RoomParam;
use socketioxide::packet::{BinaryPacket, Packet, PacketData};
use socketioxide::relay::SenderCell;
use std::borrow::Cow;
use std::str::FromStr;
use std::sync::Arc;
use std::time::Duration;

#[derive(Debug)]
struct NoAdapter;

impl Adapter for NoAdapter {
    type Error = ();
    type Socket = ();
    type AckStream = ();

    fn new() -> Self {
        NoAdapter
    }

    fn broadcast(&self, _: Packet, _: BroadcastOptions) -> Result<(), BroadcastError<()>> {
        Ok(())
    }

    fn broadcast_with_ack(&self, _: Packet, _: BroadcastOptions) -> Result<(), BroadcastError<()>> {
        Ok(())
    }

    fn fetch_sockets(&self, _: BroadcastOptions) -> Result<Vec<()>, ()> {
        Ok(vec![])
    }

    fn disconnect_socket(&self, _: BroadcastOptions) -> Result<(), BroadcastError<()>> {
        Ok(())
    }

    fn add_sockets<R: RoomParam>(&self, _: BroadcastOptions, _: R) -> Result<(), ()> {
        Ok(())
    }

    fn del_sockets<R: RoomParam>(&self, _: BroadcastOptions, _: R) -> Result<(), ()> {
        Ok(())
    }
}

type TestClient = Client<NoAdapter, u8>;

fn config() -> Arc<SocketIoConfig> {
    Arc::new(SocketIoConfig {
        connect_timeout: Duration::from_secs(45),
        ack_timeout: Duration::from_secs(5),
    })
}

fn client() -> (TestClient, SenderCell<u32>) {
    let mut cell = SenderCell::new();
    let client = Client::new(config(), 1, &mut cell);
    (client, cell)
}

fn sid() -> Sid {
    Sid::from_str("AA9AAA0AAzAAAAHs").unwrap()
}

fn packet(ns: &'static str, inner: PacketData) -> Result<Packet, ()> {
    Ok(Packet { inner, ns: Cow::Borrowed(ns) })
}

fn binary_event(ns: &'static str, payload_count: usize) -> Result<Packet, ()> {
    let binary = BinaryPacket { data: Value::from("data"), bin: vec![], payload_count };
    packet(ns, PacketData::BinaryEvent(Cow::Borrowed("test"), binary, Some(12)))
}

fn handler_of(client: &TestClient, path: &str) -> Option<u8> {
    match client.get_ns(path) {
        Some(ns) => match ns.handler {
            ConnectHandler::Custom(handler) => Some(handler),
            ConnectHandler::Relay => Some(0),
        },
        None => None,
    }
}

#[test]
fn new_client_has_no_namespace() {
    let (client, cell) = client();
    assert!(client.get_ns("/").is_none());
    assert!(client.close().is_empty());
    assert_eq!(cell.get(), Some(&1));
}

#[test]
fn first_sender_stays() {
    let mut cell = SenderCell::new();
    assert_eq!(cell.get(), None);
    let _first: TestClient = Client::new(config(), 7, &mut cell);
    let _second: TestClient = Client::new(config(), 8, &mut cell);
    assert_eq!(cell.get(), Some(&7));
    cell.get_or_init(9);
    assert_eq!(cell.get(), Some(&7));
}

#[test]
fn added_namespace_is_found() {
    let (mut client, _) = client();
    client.add_ns(Cow::Borrowed("/a"), ConnectHandler::Custom(1));
    client.add_ns(Cow::Owned("/b".to_string()), ConnectHandler::Custom(2));
    assert_eq!(handler_of(&client, "/a"), Some(1));
    assert_eq!(handler_of(&client, "/b"), Some(2));
    assert_eq!(handler_of(&client, "/"), None);
    assert_eq!(client.get_ns("/b").unwrap().path, "/b");
}

#[test]
fn namespace_with_same_path_is_replaced() {
    let (mut client, _) = client();
    client.add_ns(Cow::Borrowed("/a"), ConnectHandler::Custom(1));
    client.add_ns(Cow::Borrowed("/b"), ConnectHandler::Custom(2));
    client.add_ns(Cow::Owned("/a".to_string()), ConnectHandler::Custom(3));
    assert_eq!(handler_of(&client, "/a"), Some(3));
    assert_eq!(handler_of(&client, "/b"), Some(2));
    assert_eq!(client.close().len(), 2);
}

#[test]
fn delete_undoes_add() {
    let (mut client, _) = client();
    client.add_ns(Cow::Borrowed("/a"), ConnectHandler::Custom(1));
    client.add_ns(Cow::Borrowed("/b"), ConnectHandler::Custom(2));
    client.delete_ns("/b");
    assert_eq!(handler_of(&client, "/a"), Some(1));
    assert_eq!(handler_of(&client, "/b"), None);
    client.delete_ns("/c");
    assert_eq!(client.close().len(), 1);
    client.delete_ns("/a");
    assert!(client.close().is_empty());
}

#[test]
fn same_path_gives_same_namespace() {
    let (mut client, cell) = client();
    let first = client.sock_connect(Some("auth".to_string()), "/x", sid(), &cell);
    let second = client.sock_connect(None, "/x", sid(), &cell);
    assert!(Arc::ptr_eq(&first.ns, &second.ns));
    assert_eq!(first.auth.as_deref(), Some("auth"));
    assert_eq!(second.auth, None);
    assert_eq!(first.sid, sid());
    assert_eq!(first.sender, Some(1));
    assert_eq!(first.config.connect_timeout, Duration::from_secs(45));
    assert!(matches!(first.ns.handler, ConnectHandler::Relay));
    assert_eq!(first.ns.path, "/x");
}

#[test]
fn connecting_keeps_registered_handler() {
    let (mut client, cell) = client();
    client.add_ns(Cow::Borrowed("/a"), ConnectHandler::Custom(1));
    let request = client.sock_connect(None, "/a", sid(), &cell);
    assert!(matches!(request.ns.handler, ConnectHandler::Custom(1)));
    client.sock_connect(None, "/other", sid(), &cell);
    assert_eq!(handler_of(&client, "/a"), Some(1));
    assert_eq!(handler_of(&client, "/other"), Some(0));
}

#[test]
fn no_sender_without_channel() {
    let (mut client, _) = client();
    let cell: SenderCell<u32> = SenderCell::new();
    assert_eq!(client.sock_connect(None, "/", sid(), &cell).sender, None);
}

#[test]
fn v4_connects_to_default_namespace() {
    let (mut client, cell) = client();
    match client.on_connect(ProtocolVersion::V4, sid(), &cell) {
        ConnectAction::Connect(request) => {
            assert_eq!(request.ns.path, "/");
            assert_eq!(request.auth, None);
            assert_eq!(request.sid, sid());
        }
        ConnectAction::SpawnConnectTimeout(_) => panic!("no timeout for v4"),
    }
    assert_eq!(handler_of(&client, "/"), Some(0));
}

#[test]
fn v5_waits_for_connection() {
    let (mut client, cell) = client();
    match client.on_connect(ProtocolVersion::V5, sid(), &cell) {
        ConnectAction::Connect(_) => panic!("no default namespace for v5"),
        ConnectAction::SpawnConnectTimeout(timeout) => {
            assert_eq!(timeout, Duration::from_secs(45));
        }
    }
    assert!(client.get_ns("/").is_none());
}

#[test]
fn connecting_cancels_the_timeout() {
    let (mut client, cell) = client();
    let mut data: SocketData<char> = SocketData::default();
    assert_eq!(client.spawn_connect_timeout_task('x', &mut data), Duration::from_secs(45));
    client.on_message(binary_event("/", 2), sid(), &mut data, &cell);
    let failed = sock_connected(Err(NamespaceError { fatal: None }), &mut data);
    assert_eq!(failed.result, Err(NamespaceError { fatal: None }));
    assert_eq!(failed.cancel_timeout, None);
    let connected = sock_connected(Ok(()), &mut data);
    assert_eq!(connected.result, Ok(()));
    assert_eq!(connected.cancel_timeout, Some('x'));
    assert_eq!(sock_connected(Ok(()), &mut data).cancel_timeout, None);
    assert!(data.partial_bin_packet().is_some());
}

#[test]
fn elapsed_timeout_closes_socket() {
    assert_eq!(connect_timeout_reason(true), Some(DisconnectReason::TransportClose));
    assert_eq!(connect_timeout_reason(false), None);
}

#[test]
fn unparsable_message_closes_socket() {
    let (mut client, cell) = client();
    let mut data: SocketData<()> = SocketData::default();
    let action = client.on_message(Err(()), sid(), &mut data, &cell);
    assert!(matches!(action, MessageAction::Close(DisconnectReason::PacketParsingError)));
}

#[test]
fn connect_packet_asks_its_namespace() {
    let (mut client, cell) = client();
    client.add_ns(Cow::Borrowed("/a"), ConnectHandler::Custom(1));
    let mut data: SocketData<()> = SocketData::default();
    let connect = PacketData::Connect(Some("{}".to_string()));
    match client.on_message(packet("/a", connect), sid(), &mut data, &cell) {
        MessageAction::Connect(request) => {
            assert_eq!(request.ns.path, "/a");
            assert_eq!(request.auth.as_deref(), Some("{}"));
        }
        _ => panic!("a connection is asked for"),
    }
}

#[test]
fn event_goes_to_its_namespace() {
    let (mut client, cell) = client();
    client.add_ns(Cow::Borrowed("/a"), ConnectHandler::Custom(1));
    client.add_ns(Cow::Borrowed("/b"), ConnectHandler::Custom(2));
    let mut data: SocketData<()> = SocketData::default();
    let event = PacketData::Event(Cow::Borrowed("e"), Value::from(3), None);
    match client.on_message(packet("/b", event), sid(), &mut data, &cell) {
        MessageAction::Deliver(delivery) => {
            assert_eq!(delivery.ns.path, "/b");
            assert_eq!(delivery.sid, sid());
            assert_eq!(
                delivery.packet,
                PacketData::Event(Cow::Borrowed("e"), Value::from(3), None)
            );
        }
        _ => panic!("the event is delivered"),
    }
}

#[test]
fn packet_for_unknown_namespace_is_dropped() {
    let (mut client, cell) = client();
    let mut data: SocketData<()> = SocketData::default();
    let action = client.on_message(packet("/a", PacketData::Disconnect), sid(), &mut data, &cell);
    assert!(matches!(action, MessageAction::Done));
    let unknown = packet("/a", PacketData::EventAck(Value::Null, 1)).unwrap();
    assert!(client.sock_propagate_packet(unknown, sid()).is_none());
    assert!(client.get_ns("/a").is_none());
}

#[test]
fn binary_packet_is_reassembled() {
    let (mut client, cell) = client();
    client.add_ns(Cow::Borrowed("/a"), ConnectHandler::Custom(1));
    let mut data: SocketData<()> = SocketData::default();
    let action = client.on_message(binary_event("/a", 3), sid(), &mut data, &cell);
    assert!(matches!(action, MessageAction::Done));
    assert!(client.on_binary(vec![1], sid(), &mut data).is_none());
    assert!(client.on_binary(vec![], sid(), &mut data).is_none());
    let delivery = client.on_binary(vec![2, 3], sid(), &mut data).unwrap();
    assert_eq!(delivery.ns.path, "/a");
    let binary = BinaryPacket {
        data: Value::from("data"),
        bin: vec![vec![1], vec![], vec![2, 3]],
        payload_count: 3,
    };
    assert_eq!(delivery.packet, PacketData::BinaryEvent(Cow::Borrowed("test"), binary, Some(12)));
    assert!(data.partial_bin_packet().is_none());
    assert!(client.on_binary(vec![4], sid(), &mut data).is_none());
}

#[test]
fn binary_ack_is_reassembled() {
    let (mut client, cell) = client();
    client.add_ns(Cow::Borrowed("/"), ConnectHandler::Relay);
    let mut data: SocketData<()> = SocketData::default();
    let binary = BinaryPacket { data: Value::Null, bin: vec![], payload_count: 1 };
    client.on_message(packet("/", PacketData::BinaryAck(binary, 54)), sid(), &mut data, &cell);
    let delivery = client.on_binary(vec![9], sid(), &mut data).unwrap();
    let binary = BinaryPacket { data: Value::Null, bin: vec![vec![9]], payload_count: 1 };
    assert_eq!(delivery.packet, PacketData::BinaryAck(binary, 54));
}

#[test]
fn later_binary_packet_takes_the_place() {
    let (mut client, cell) = client();
    client.add_ns(Cow::Borrowed("/b"), ConnectHandler::Relay);
    let mut data: SocketData<()> = SocketData::default();
    client.on_message(binary_event("/a", 2), sid(), &mut data, &cell);
    client.on_binary(vec![1], sid(), &mut data);
    client.on_message(binary_event("/b", 1), sid(), &mut data, &cell);
    let delivery = client.on_binary(vec![2], sid(), &mut data).unwrap();
    assert_eq!(delivery.ns.path, "/b");
    match delivery.packet {
        PacketData::BinaryEvent(_, binary, _) => assert_eq!(binary.bin, vec![vec![2]]),
        _ => panic!("a binary event is delivered"),
    }
}

#[test]
fn complete_packet_for_unknown_namespace_is_dropped() {
    let (mut client, cell) = client();
    let mut data: SocketData<()> = SocketData::default();
    client.on_message(binary_event("/a", 1), sid(), &mut data, &cell);
    assert!(client.on_binary(vec![1], sid(), &mut data).is_none());
    assert!(data.partial_bin_packet().is_none());
}

#[test]
fn unexpected_payloads_are_dropped() {
    let mut data: SocketData<()> = SocketData::default();
    assert!(!apply_payload_on_packet(vec![1, 2], &mut data));
    assert!(data.partial_bin_packet().is_none());
}

#[test]
fn payloads_are_kept_until_packet_is_complete() {
    let (mut client, cell) = client();
    let mut data: SocketData<()> = SocketData::default();
    client.on_message(binary_event("/a", 2), sid(), &mut data, &cell);
    assert!(!apply_payload_on_packet(vec![1], &mut data));
    assert!(apply_payload_on_packet(vec![2], &mut data));
    let packet = data.partial_bin_packet().unwrap();
    assert_eq!(packet.ns, "/a");
    match &packet.inner {
        PacketData::BinaryEvent(_, binary, _) => assert_eq!(binary.bin, vec![vec![1], vec![2]]),
        _ => panic!("the packet stays a binary one"),
    }
}

#[test]
fn fatal_error_closes_socket() {
    let reason = Some(DisconnectReason::TransportError);
    assert_eq!(close_reason(Ok(())), None);
    assert_eq!(close_reason(Err(NamespaceError { fatal: None })), None);
    assert_eq!(close_reason(Err(NamespaceError { fatal: reason })), reason);
}

#[test]
fn disconnection_visits_every_namespace() {
    let (mut client, _) = client();
    client.add_ns(Cow::Borrowed("/a"), ConnectHandler::Relay);
    client.add_ns(Cow::Borrowed("/b"), ConnectHandler::Relay);
    client.add_ns(Cow::Borrowed("/c"), ConnectHandler::Relay);
    let mut disconnection = client.on_disconnect(sid(), DisconnectReason::HeartbeatTimeout);
    let mut paths = vec![];
    for visit in [Visit::Absent, Visit::Closed, Visit::Closed] {
        let request = disconnection.next().unwrap();
        assert_eq!(request.sid, sid());
        assert_eq!(request.reason, DisconnectReason::HeartbeatTimeout);
        paths.push(request.ns.path.to_string());
        disconnection.visited(visit);
    }
    assert!(disconnection.next().is_none());
    paths.sort();
    assert_eq!(paths, ["/a", "/b", "/c"]);
    disconnection.visited(Visit::Closed);
    assert!(disconnection.next().is_none());
}

#[test]
fn disconnection_stops_at_failure() {
    let (mut client, _) = client();
    client.add_ns(Cow::Borrowed("/a"), ConnectHandler::Relay);
    client.add_ns(Cow::Borrowed("/b"), ConnectHandler::Relay);
    client.add_ns(Cow::Borrowed("/c"), ConnectHandler::Relay);
    let mut disconnection = client.on_disconnect(sid(), DisconnectReason::ClosingServer);
    disconnection.visited(Visit::Closed);
    assert!(disconnection.next().is_some());
    disconnection.visited(Visit::Failed);
    assert!(disconnection.next().is_none());
}

#[test]
fn close_gives_every_namespace() {
    let (mut client, _) = client();
    client.add_ns(Cow::Borrowed("/b"), ConnectHandler::Relay);
    client.add_ns(Cow::Borrowed("/a"), ConnectHandler::Relay);
    let mut paths: Vec<String> = client.close().iter().map(|ns| ns.path.to_string()).collect();
    paths.sort();
    assert_eq!(paths, ["/a", "/b"]);
}

#[test]
fn copies_of_a_layer_share_the_client() {
    let mut cell = SenderCell::new();
    let (layer, client) = SocketIoLayer::<TestClient>::from_config(config(), 5, &mut cell);
    let copy = layer.clone();
    assert!(Arc::ptr_eq(&client, &copy.service_client()));
    assert!(Arc::ptr_eq(&client, &layer.service_client()));
    assert!(client.get_ns("/").is_none());
    assert_eq!(cell.get(), Some(&5));
}

#[test]
fn layer_is_made_around_a_client() {
    let (layer, client) = SocketIoLayer::from_client(7u8);
    assert_eq!(*client, 7);
    assert!(Arc::ptr_eq(&client, &layer.service_client()));
}
