use serde_json::Value;
use socketioxide::handler::message::{
    BoxedMessageHandler, FromMessage, FromMessageParts, GeneralMessage, MessageHandler,
};
use socketioxide::handler::private::{Async, Sync, ViaParts, ViaRequest};
use socketioxide::handler::{ConnectHandler, MakeErasedHandler};
use socketioxide::json::is_null;
use socketioxide::relay::{on_connect, relayed_data, SenderCell, CONNECT_KEY, DISCONNECT_KEY};
use std::sync::{Arc, Mutex};

type Socket = &'static str;

/// Takes the first binary payload away.
#[derive(Debug, PartialEq)]
struct Payload(Vec<u8>);

impl FromMessageParts<Socket> for Payload {
    type Error = &'static str;

    fn from_message_parts(
        _: &Socket,
        _: &mut Value,
        p: &mut Vec<Vec<u8>>,
        _: &Option<i64>,
    ) -> Result<Self, &'static str> {
        if p.is_empty() {
            Err("no payload")
        } else {
            Ok(Payload(p.remove(0)))
        }
    }
}

#[derive(Debug, PartialEq)]
struct Name(Socket);

impl FromMessageParts<Socket> for Name {
    type Error = ();

    fn from_message_parts(
        s: &Socket,
        _: &mut Value,
        _: &mut Vec<Vec<u8>>,
        _: &Option<i64>,
    ) -> Result<Self, ()> {
        Ok(Name(*s))
    }
}

/// The whole message, which has to have an acknowledgement.
#[derive(Debug, PartialEq)]
struct Whole(Value, Vec<Vec<u8>>, i64);

impl FromMessage<Socket> for Whole {
    type Error = ();

    fn from_message(
        _: Socket,
        v: Value,
        p: Vec<Vec<u8>>,
        ack_id: Option<i64>,
    ) -> Result<Self, ()> {
        match ack_id {
            Some(ack_id) => Ok(Whole(v, p, ack_id)),
            None => Err(()),
        }
    }
}

/// What the handlers were called with.
struct Log<T>(Arc<Mutex<Vec<T>>>);

impl<T> Clone for Log<T> {
    fn clone(&self) -> Self {
        Log(self.0.clone())
    }
}

impl<T> Log<T> {
    fn new() -> Self {
        Log(Arc::new(Mutex::new(vec![])))
    }

    fn add(&self, entry: T) {
        self.0.lock().unwrap().push(entry);
    }

    fn take(&self) -> Vec<T> {
        std::mem::take(&mut *self.0.lock().unwrap())
    }
}

fn call<T, H: MessageHandler<Socket, T>>(
    handler: &H,
    p: Vec<Vec<u8>>,
    ack_id: Option<i64>,
) -> Option<H::Output> {
    handler.call("socket", Value::from("value"), p, ack_id)
}

#[test]
fn empty_handler_is_always_called() {
    let log = Log::new();
    let entries = log.clone();
    let handler = move || entries.add(7);
    assert_eq!(call::<(Sync,), _>(&handler, vec![], None), Some(()));
    assert_eq!(call::<(Sync,), _>(&handler, vec![vec![1]], Some(2)), Some(()));
    assert_eq!(log.take(), [7, 7]);
}

#[test]
fn async_handler_returns_its_future() {
    let log = Log::new();
    let entries = log.clone();
    let handler = move |payload: Payload| async move { entries.add(payload) };
    type Args = (Async, ViaParts, Payload);
    assert!(call::<Args, _>(&handler, vec![], None).is_none());
    let future = call::<Args, _>(&handler, vec![vec![5]], None).unwrap();
    assert!(log.take().is_empty());
    futures::executor::block_on(future);
    assert_eq!(log.take(), [Payload(vec![5])]);
}

#[test]
fn empty_async_handler_returns_its_future() {
    let log = Log::new();
    let entries = log.clone();
    let handler = move || async move { entries.add(1) };
    futures::executor::block_on(call::<(Async,), _>(&handler, vec![], None).unwrap());
    assert_eq!(log.take(), [1]);
}

#[test]
fn handler_gets_the_whole_message() {
    let log = Log::new();
    let entries = log.clone();
    let handler = move |whole: Whole| entries.add(whole);
    let output = call::<(Sync, ViaRequest, Whole), _>(&handler, vec![vec![1]], Some(3));
    assert_eq!(output, Some(()));
    assert_eq!(log.take(), [Whole(Value::from("value"), vec![vec![1]], 3)]);
}

#[test]
fn handler_is_not_called_if_last_argument_fails() {
    let log = Log::new();
    let entries = log.clone();
    let handler = move |payload: Payload, _: Whole| entries.add(payload);
    type Args = (Sync, ViaRequest, Payload, Whole);
    assert_eq!(call::<Args, _>(&handler, vec![vec![1]], None), None);
    assert!(log.take().is_empty());
    assert_eq!(call::<Args, _>(&handler, vec![vec![1]], Some(1)), Some(()));
    assert_eq!(log.take(), [Payload(vec![1])]);
}

#[test]
fn handler_is_not_called_if_first_argument_fails() {
    let log = Log::new();
    let entries = log.clone();
    let handler = move |_: Payload, whole: Whole| entries.add(whole);
    type Args = (Sync, ViaRequest, Payload, Whole);
    assert_eq!(call::<Args, _>(&handler, vec![], Some(1)), None);
    assert!(log.take().is_empty());
}

#[test]
fn each_argument_gets_what_the_one_before_left() {
    let log = Log::new();
    let entries = log.clone();
    let handler = move |name: Name, first: Payload, second: Payload, whole: Whole| {
        entries.add((name, first, second, whole))
    };
    type Args = (Sync, ViaRequest, Name, Payload, Payload, Whole);
    let output = call::<Args, _>(&handler, vec![vec![1], vec![2], vec![3]], Some(-1));
    assert_eq!(output, Some(()));
    let whole = Whole(Value::from("value"), vec![vec![3]], -1);
    assert_eq!(log.take(), [(Name("socket"), Payload(vec![1]), Payload(vec![2]), whole)]);
}

#[test]
fn parts_are_extracted_from_messages() {
    let log = Log::new();
    let entries = log.clone();
    let handler = move |payload: Payload| entries.add(payload);
    type Args = (Sync, ViaParts, Payload);
    assert_eq!(call::<Args, _>(&handler, vec![vec![5]], None), Some(()));
    assert_eq!(log.take(), [Payload(vec![5])]);
    assert_eq!(call::<Args, _>(&handler, vec![], None), None);
    let extracted = <Payload as FromMessage<Socket, ViaParts>>::from_message(
        "socket",
        Value::Null,
        vec![],
        None,
    );
    assert_eq!(extracted, Err("no payload"));
}

#[test]
fn handler_with_sixteen_arguments() {
    let log = Log::new();
    let entries = log.clone();
    let handler = move |a: Payload,
                        b: Payload,
                        c: Payload,
                        d: Payload,
                        e: Payload,
                        f: Payload,
                        g: Payload,
                        h: Payload,
                        i: Payload,
                        j: Payload,
                        k: Payload,
                        l: Payload,
                        m: Payload,
                        n: Payload,
                        o: Payload,
                        p: Payload| {
        let all = [a, b, c, d, e, f, g, h, i, j, k, l, m, n, o, p];
        entries.add(all.iter().map(|payload| payload.0[0]).collect::<Vec<u8>>())
    };
    type Args = (
        Sync,
        ViaParts,
        Payload,
        Payload,
        Payload,
        Payload,
        Payload,
        Payload,
        Payload,
        Payload,
        Payload,
        Payload,
        Payload,
        Payload,
        Payload,
        Payload,
        Payload,
        Payload,
    );
    let payloads: Vec<Vec<u8>> = (0..16).map(|i| vec![i]).collect();
    assert_eq!(call::<Args, _>(&handler, payloads[..15].to_vec(), None), None);
    assert!(log.take().is_empty());
    assert_eq!(call::<Args, _>(&handler, payloads, None), Some(()));
    assert_eq!(log.take(), [(0..16).collect::<Vec<u8>>()]);
}

#[test]
fn boxed_handlers_forget_their_arguments() {
    type One = (Sync, ViaParts, Payload);
    type Two = (Sync, ViaParts, Name, Payload);
    let log = Log::new();
    let entries = log.clone();
    let one = move |payload: Payload| entries.add(payload.0.len());
    let entries = log.clone();
    let two = move |name: Name, payload: Payload| entries.add(name.0.len() + payload.0.len());
    let handlers: Vec<BoxedMessageHandler<Socket, ()>> = vec![
        MakeErasedHandler::<_, Socket, One>::new_message_boxed(one),
        MakeErasedHandler::<_, Socket, Two>::new_message_boxed(two),
    ];
    for handler in &handlers {
        let output = handler.call("socket", Value::Null, vec![vec![1, 2]], None);
        assert_eq!(output, Some(()));
    }
    assert_eq!(log.take(), [2, 8]);
    assert_eq!(handlers[1].call("socket", Value::Null, vec![], None), None);
    assert!(log.take().is_empty());
}

#[test]
fn kind_and_arguments_of_a_handler_are_inferred() {
    let log = Log::new();
    let entries = log.clone();
    let handler = move |name: Name, whole: Whole| entries.add((name, whole));
    let sync: BoxedMessageHandler<Socket, ()> = MakeErasedHandler::new_message_boxed(handler);
    assert_eq!(sync.call("socket", Value::Null, vec![], Some(1)), Some(()));
    assert_eq!(log.take(), [(Name("socket"), Whole(Value::Null, vec![], 1))]);
    let handler = |_: Name| std::future::ready(());
    let boxed: BoxedMessageHandler<Socket, std::future::Ready<()>> =
        MakeErasedHandler::new_message_boxed(handler);
    let future = boxed.call("socket", Value::Null, vec![], None).unwrap();
    futures::executor::block_on(future);
}

#[test]
fn cloned_message_has_the_same_fields() {
    let message = GeneralMessage {
        key: "key".to_string(),
        socket: Arc::new(4),
        value: Value::from(vec![1, 2]),
        params: vec![vec![1], vec![]],
        ack_id: Some(6),
    };
    let copy = message.clone();
    assert_eq!(copy.key, "key");
    assert!(Arc::ptr_eq(&copy.socket, &message.socket));
    assert_eq!(copy.value, Value::from(vec![1, 2]));
    assert_eq!(copy.params, vec![vec![1], vec![]]);
    assert_eq!(copy.ack_id, Some(6));
}

#[test]
fn connection_is_announced() {
    let mut cell = SenderCell::new();
    cell.get_or_init('s');
    let socket = Arc::new(1);
    let connected = on_connect(&socket, Value::from("auth"), &cell);
    let relayed = connected.announcement.unwrap();
    assert_eq!(*relayed.sender, 's');
    assert_eq!(relayed.message.key, "connect");
    assert_eq!(relayed.message.value, Value::from("auth"));
    assert!(Arc::ptr_eq(&relayed.message.socket, &socket));
    assert!(relayed.message.params.is_empty());
    assert_eq!(relayed.message.ack_id, None);
}

#[test]
fn disconnection_is_announced() {
    let mut cell = SenderCell::new();
    cell.get_or_init('s');
    let socket = Arc::new(1);
    let other = Arc::new(1);
    let connected = on_connect(&other, Value::Null, &cell);
    let relayed = connected.on_disconnect.call(&socket, &cell).unwrap();
    assert_eq!(*relayed.sender, 's');
    assert_eq!(relayed.message.key, "disconnect");
    assert!(is_null(&relayed.message.value));
    assert!(Arc::ptr_eq(&relayed.message.socket, &socket));
    assert!(relayed.message.params.is_empty());
    assert_eq!(relayed.message.ack_id, None);
}

#[test]
fn nothing_is_announced_without_channel() {
    let cell: SenderCell<char> = SenderCell::new();
    let connected = on_connect(&1, Value::Null, &cell);
    assert!(connected.announcement.is_none());
    assert!(connected.on_disconnect.call(&1, &cell).is_none());
}

#[test]
fn announcements_have_different_keys() {
    assert_eq!(CONNECT_KEY, "connect");
    assert_eq!(DISCONNECT_KEY, "disconnect");
}

#[test]
fn only_null_is_null() {
    assert!(is_null(&Value::Null));
    assert!(!is_null(&Value::from(false)));
    assert!(!is_null(&Value::from("null")));
}

#[test]
fn only_relayed_connections_are_announced() {
    let relay: ConnectHandler<u8> = ConnectHandler::Relay;
    let custom: ConnectHandler<u8> = ConnectHandler::Custom(1);
    assert_eq!(relayed_data(&relay, Some(Value::from(1))), Some(Value::from(1)));
    assert_eq!(relayed_data(&relay, None), None);
    assert_eq!(relayed_data(&custom, Some(Value::from(1))), None);
}
