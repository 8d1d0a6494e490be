//! [`Operators`] are used to select sockets to send a packet to, or to configure the packet that will be emitted.
//! It uses the builder pattern to chain operators.
use crate::adapter::{
    room_names, Adapter, BroadcastFlags, BroadcastOptions, OptionsView, Room,
};
use crate::errors::BroadcastError;
use crate::json::to_value;
use crate::ns::Namespace;
use crate::packet::{Packet, PacketData};
use crate::sid::{sid_text, sid_to_string};
use engineioxide::sid::Sid;
use serde_json::Value;
use std::borrow::Cow;
use std::sync::Arc;
use std::time::Duration;
use vstd::prelude::*;
use vstd::std_specs::iter::IteratorSpec;

verus! {

/// A trait for types that can be used as a room parameter.
///
/// [`String`], [`Vec<String>`], [`Vec<&str>`], [`&'static str`](str) and const arrays are implemented by default.
pub trait RoomParam: Sized + 'static {
    /// The type of the iterator returned by `into_room_iter`.
    type IntoIter: Iterator<Item = Room>;

    /// The names of the rooms, in the order in which the iterator gives them.
    spec fn names(self) -> Seq<Seq<char>>;

    /// Convert `self` into an iterator of rooms.
    fn into_room_iter(self) -> (rooms: Self::IntoIter)
        ensures
            rooms.obeys_prophetic_iter_laws(),
            rooms.decrease() is Some,
            room_names(rooms.remaining()) == self.names(),
    ;
}

/// The iterator over a single room.
fn one_room(room: Room) -> (rooms: std::vec::IntoIter<Room>)
    ensures
        rooms.obeys_prophetic_iter_laws(),
        rooms.decrease() is Some,
        room_names(rooms.remaining()) == seq![room@],
        rooms.remaining() == seq![room],
{
    let mut rooms: Vec<Room> = Vec::new();
    rooms.push(room);
    assert(room_names(rooms@) =~= seq![room@]);
    rooms.into_iter()
}

/// One more room behind the others.
proof fn lemma_push_name(rooms: Seq<Room>, room: Room)
    ensures
        room_names(rooms.push(room)) == room_names(rooms).push(room@),
{
    assert(room_names(rooms.push(room)) =~= room_names(rooms).push(room@));
}

impl RoomParam for Room {
    type IntoIter = std::vec::IntoIter<Room>;

    open spec fn names(self) -> Seq<Seq<char>> {
        seq![self@]
    }

    fn into_room_iter(self) -> (rooms: Self::IntoIter)
        ensures
            rooms.remaining().len() == 1,
            rooms.remaining()[0]@ == self@,
    {
        one_room(self)
    }
}

impl RoomParam for String {
    type IntoIter = std::vec::IntoIter<Room>;

    open spec fn names(self) -> Seq<Seq<char>> {
        seq![self@]
    }

    fn into_room_iter(self) -> (rooms: Self::IntoIter)
        ensures
            rooms.remaining().len() == 1,
            rooms.remaining()[0]@ == self@,
    {
        one_room(Cow::Owned(self))
    }
}

impl RoomParam for Vec<String> {
    type IntoIter = std::vec::IntoIter<Room>;

    open spec fn names(self) -> Seq<Seq<char>> {
        self@.map_values(|name: String| name@)
    }

    fn into_room_iter(self) -> (rooms: Self::IntoIter)
        ensures
            rooms.remaining().len() == self@.len(),
            forall|i: int|
                0 <= i < self@.len() ==> (#[trigger] rooms.remaining()[i])@ == self@[i]@,
    {
        let ghost texts = self@;
        let ghost names = self.names();
        let mut rooms: Vec<Room> = Vec::new();
        for name in it: self.into_iter()
            invariant
                it.seq().map_values(|name: String| name@) == names,
                room_names(rooms@) == names.take(it.index()),
        {
            proof {
                lemma_push_name(rooms@, Cow::Owned(name));
                assert(names.take(it.index() + 1) =~= names.take(it.index()).push(name@));
            }
            rooms.push(Cow::Owned(name));
        }
        assert(names.take(names.len() as int) =~= names);
        assert forall|i: int| 0 <= i < texts.len() implies (#[trigger] rooms@[i])@ == texts[i]@ by {
            assert(room_names(rooms@)[i] == names[i]);
        }
        rooms.into_iter()
    }
}

impl RoomParam for Vec<&'static str> {
    type IntoIter = std::vec::IntoIter<Room>;

    open spec fn names(self) -> Seq<Seq<char>> {
        self@.map_values(|name: &'static str| name@)
    }

    fn into_room_iter(self) -> (rooms: Self::IntoIter)
        ensures
            rooms.remaining().len() == self@.len(),
            forall|i: int|
                0 <= i < self@.len() ==> (#[trigger] rooms.remaining()[i])@ == self@[i]@,
    {
        let ghost texts = self@;
        let ghost names = self.names();
        let mut rooms: Vec<Room> = Vec::new();
        for name in it: self.into_iter()
            invariant
                it.seq().map_values(|name: &'static str| name@) == names,
                room_names(rooms@) == names.take(it.index()),
        {
            proof {
                lemma_push_name(rooms@, Cow::Borrowed(name));
                assert(names.take(it.index() + 1) =~= names.take(it.index()).push(name@));
            }
            rooms.push(Cow::Borrowed(name));
        }
        assert(names.take(names.len() as int) =~= names);
        assert forall|i: int| 0 <= i < texts.len() implies (#[trigger] rooms@[i])@ == texts[i]@ by {
            assert(room_names(rooms@)[i] == names[i]);
        }
        rooms.into_iter()
    }
}

impl RoomParam for Vec<Room> {
    type IntoIter = std::vec::IntoIter<Room>;

    open spec fn names(self) -> Seq<Seq<char>> {
        room_names(self@)
    }

    fn into_room_iter(self) -> (rooms: Self::IntoIter)
        ensures
            rooms.remaining() == self@,
    {
        self.into_iter()
    }
}

impl RoomParam for &'static str {
    type IntoIter = std::vec::IntoIter<Room>;

    open spec fn names(self) -> Seq<Seq<char>> {
        seq![self@]
    }

    fn into_room_iter(self) -> (rooms: Self::IntoIter)
        ensures
            rooms.remaining().len() == 1,
            rooms.remaining()[0]@ == self@,
    {
        one_room(Cow::Borrowed(self))
    }
}

impl<const COUNT: usize> RoomParam for [&'static str; COUNT] {
    type IntoIter = std::vec::IntoIter<Room>;

    open spec fn names(self) -> Seq<Seq<char>> {
        self@.map_values(|name: &'static str| name@)
    }

    fn into_room_iter(self) -> (rooms: Self::IntoIter)
        ensures
            rooms.remaining().len() == self@.len(),
            forall|i: int|
                0 <= i < self@.len() ==> (#[trigger] rooms.remaining()[i])@ == self@[i]@,
    {
        let ghost texts = self@;
        let ghost names = self.names();
        let mut rooms: Vec<Room> = Vec::new();
        for i in 0..COUNT
            invariant
                names == self.names(),
                room_names(rooms@) == names.take(i as int),
        {
            let name: &'static str = self[i];
            proof {
                lemma_push_name(rooms@, Cow::Borrowed(name));
                assert(names.take(i + 1) =~= names.take(i as int).push(name@));
            }
            rooms.push(Cow::Borrowed(name));
        }
        assert(names.take(COUNT as int) =~= names);
        assert forall|i: int| 0 <= i < texts.len() implies (#[trigger] rooms@[i])@ == texts[i]@ by {
            assert(room_names(rooms@)[i] == names[i]);
        }
        rooms.into_iter()
    }
}

impl<const COUNT: usize> RoomParam for [String; COUNT] {
    type IntoIter = std::vec::IntoIter<Room>;

    open spec fn names(self) -> Seq<Seq<char>> {
        self@.map_values(|name: String| name@)
    }

    fn into_room_iter(self) -> (rooms: Self::IntoIter)
        ensures
            rooms.remaining().len() == self@.len(),
            forall|i: int|
                0 <= i < self@.len() ==> (#[trigger] rooms.remaining()[i])@ == self@[i]@,
    {
        let ghost texts = self@;
        let ghost names = self.names();
        let mut rooms: Vec<Room> = Vec::new();
        for i in 0..COUNT
            invariant
                names == self.names(),
                room_names(rooms@) == names.take(i as int),
        {
            let name: String = self[i].clone();
            proof {
                lemma_push_name(rooms@, Cow::Owned(name));
                assert(names.take(i + 1) =~= names.take(i as int).push(name@));
            }
            rooms.push(Cow::Owned(name));
        }
        assert(names.take(COUNT as int) =~= names);
        assert forall|i: int| 0 <= i < texts.len() implies (#[trigger] rooms@[i])@ == texts[i]@ by {
            assert(room_names(rooms@)[i] == names[i]);
        }
        rooms.into_iter()
    }
}

impl RoomParam for Sid {
    type IntoIter = std::vec::IntoIter<Room>;

    open spec fn names(self) -> Seq<Seq<char>> {
        seq![sid_text(self)]
    }

    /// No other session id gives the same room.
    fn into_room_iter(self) -> (rooms: Self::IntoIter)
        ensures
            rooms.remaining().len() == 1,
            rooms.remaining()[0]@ == sid_text(self),
            forall|other: Sid| #[trigger]
                other.names() == room_names(rooms.remaining()) ==> other == self,
    {
        let text = sid_to_string(self);
        assert forall|other: Sid| #[trigger] other.names() == seq![text@] implies other == self by {
            assert(other.names()[0] == seq![text@][0]);
        }
        one_room(Cow::Owned(text))
    }
}

/// Puts the rooms behind those that are there.
fn extend_rooms<R: RoomParam>(list: &mut Vec<Room>, rooms: R)
    ensures
        room_names(final(list)@) == room_names(old(list)@) + rooms.names(),
{
    let mut it = rooms.into_room_iter();
    let ghost before = list@;
    let ghost todo = it.remaining();
    let ghost mut done: int = 0;
    assert(todo.skip(0) =~= todo);
    assert(before + todo.take(0) =~= before);
    loop
        invariant
            it.obeys_prophetic_iter_laws(),
            it.decrease() is Some,
            0 <= done <= todo.len(),
            it.remaining() == todo.skip(done),
            list@ == before + todo.take(done),
        ensures
            done == todo.len(),
        decreases it.decrease()->0,
    {
        match it.next() {
            None => {
                break;
            },
            Some(room) => {
                list.push(room);
                proof {
                    assert(todo.skip(done).drop_first() =~= todo.skip(done + 1));
                    assert((before + todo.take(done)).push(todo[done]) =~= before + todo.take(
                        done + 1,
                    ));
                    done = done + 1;
                }
            },
        }
    }
    assert(todo.take(done) =~= todo);
    assert(room_names(before + todo) =~= room_names(before) + room_names(todo));
}

/// A copy of the text.
fn copy_text(text: &Cow<'static, str>) -> (copy: Cow<'static, str>)
    ensures
        copy == *text,
{
    match text {
        Cow::Borrowed(text) => Cow::Borrowed(*text),
        Cow::Owned(text) => Cow::Owned(text.clone()),
    }
}

/// The packet is the event `event` with `data`, for the namespace with this path:
/// a plain event without binary payloads, a binary event with them.
pub open spec fn is_event_packet(
    packet: Packet,
    path: Cow<'static, str>,
    event: Cow<'static, str>,
    data: Value,
    binary: Vec<Vec<u8>>,
) -> bool {
    &&& packet.ns == path
    &&& if binary@.len() == 0 {
        packet.inner == PacketData::Event(event, data, None)
    } else {
        packet.inner matches PacketData::BinaryEvent(name, payloads, ack) && {
            &&& name == event
            &&& ack is None
            &&& payloads.data == data
            &&& payloads.bin == binary
            &&& payloads.payload_count == binary@.len()
        }
    }
}

/// Operators are used to select sockets to send a packet to, or to configure the packet that will be emitted.
#[derive(Debug)]
pub struct Operators<A: Adapter, C> {
    opts: BroadcastOptions,
    ns: Arc<Namespace<A, C>>,
    binary: Vec<Vec<u8>>,
}

impl<A: Adapter, C> Operators<A, C> {
    /// The options that the adapter gets.
    pub closed spec fn opts(self) -> BroadcastOptions {
        self.opts
    }

    /// The namespace of the sockets.
    pub closed spec fn ns(self) -> Arc<Namespace<A, C>> {
        self.ns
    }

    /// The binary payloads of the message.
    pub closed spec fn binary(self) -> Vec<Vec<u8>> {
        self.binary
    }

    /// The operators differ from `before` in their options only.
    pub open spec fn changes_options(self, before: Operators<A, C>, opts: OptionsView) -> bool {
        &&& self.opts()@ == opts
        &&& self.ns() == before.ns()
        &&& self.binary() == before.binary()
    }

    /// No operator yet, on behalf of a socket or of the whole namespace.
    pub fn new(ns: Arc<Namespace<A, C>>, sid: Option<Sid>) -> (operators: Operators<A, C>)
        ensures
            operators.opts()@ == OptionsView::new(sid),
            operators.ns() == ns,
            operators.binary()@.len() == 0,
    {
        Operators { opts: BroadcastOptions::new(sid), ns, binary: Vec::new() }
    }

    /// Selects all sockets in the given rooms except the current socket.
    /// If it is called from the `Namespace` level there will be no difference with the `within()` operator
    ///
    /// If you want to include the current socket, use the `within()` operator.
    pub fn to(self, rooms: impl RoomParam) -> (operators: Operators<A, C>)
        ensures
            operators.changes_options(self, self.opts()@.to(rooms.names())),
    {
        let mut operators = self;
        extend_rooms(&mut operators.opts.rooms, rooms);
        operators.opts.flags.insert(BroadcastFlags::Broadcast);
        operators
    }

    /// Selects all sockets in the given rooms.
    ///
    /// It does include the current socket contrary to the `to()` operator.
    /// If it is called from the `Namespace` level there will be no difference with the `to()` operator
    pub fn within(self, rooms: impl RoomParam) -> (operators: Operators<A, C>)
        ensures
            operators.changes_options(self, self.opts()@.within(rooms.names())),
    {
        let mut operators = self;
        extend_rooms(&mut operators.opts.rooms, rooms);
        operators
    }

    /// Filters out all sockets selected with the previous operators which are in the given rooms.
    pub fn except(self, rooms: impl RoomParam) -> (operators: Operators<A, C>)
        ensures
            operators.changes_options(self, self.opts()@.except(rooms.names())),
    {
        let mut operators = self;
        extend_rooms(&mut operators.opts.except, rooms);
        operators.opts.flags.insert(BroadcastFlags::Broadcast);
        operators
    }

    /// Broadcasts to all sockets only connected on this node (when using multiple nodes).
    /// When using the default in-memory adapter, this operator is a no-op.
    pub fn local(self) -> (operators: Operators<A, C>)
        ensures
            operators.changes_options(self, self.opts()@.local()),
    {
        let mut operators = self;
        operators.opts.flags.insert(BroadcastFlags::Local);
        operators
    }

    /// Broadcasts to all sockets without any filtering (except the current socket).
    pub fn broadcast(self) -> (operators: Operators<A, C>)
        ensures
            operators.changes_options(self, self.opts()@.broadcast()),
    {
        let mut operators = self;
        operators.opts.flags.insert(BroadcastFlags::Broadcast);
        operators
    }

    /// Sets a custom timeout when sending a message with an acknowledgement.
    pub fn timeout(self, timeout: Duration) -> (operators: Operators<A, C>)
        ensures
            operators.changes_options(self, self.opts()@.timeout(timeout)),
    {
        let mut operators = self;
        operators.opts.flags.insert(BroadcastFlags::Timeout(timeout));
        operators
    }

    /// Adds a binary payload to the message.
    pub fn bin(self, binary: Vec<Vec<u8>>) -> (operators: Operators<A, C>)
        ensures
            operators.opts() == self.opts(),
            operators.ns() == self.ns(),
            operators.binary() == binary,
    {
        let mut operators = self;
        operators.binary = binary;
        operators
    }

    /// Emits a message to all sockets selected with the previous operators.
    pub fn emit(self, event: Cow<'static, str>, data: Value) -> (result: Result<
        (),
        BroadcastError<A::Error>,
    >)
        ensures
            exists|packet: Packet|
                {
                    &&& is_event_packet(packet, self.ns().path, event, data, self.binary())
                    &&& #[trigger] call_ensures(
                        A::broadcast,
                        (&self.ns().adapter, packet, self.opts()),
                        result,
                    )
                },
    {
        self.emit_serialized(event, to_value(data))
    }

    /// Emits a message whose data is what came of serialising it.
    pub fn emit_serialized(
        self,
        event: Cow<'static, str>,
        data: Result<Value, serde_json::Error>,
    ) -> (result: Result<(), BroadcastError<A::Error>>)
        ensures
            match data {
                Ok(data) => exists|packet: Packet|
                    {
                        &&& is_event_packet(packet, self.ns().path, event, data, self.binary())
                        &&& #[trigger] call_ensures(
                            A::broadcast,
                            (&self.ns().adapter, packet, self.opts()),
                            result,
                        )
                    },
                Err(error) => result == Err::<(), BroadcastError<A::Error>>(
                    BroadcastError::Serialize(error),
                ),
            },
    {
        let mut operators = self;
        match operators.get_packet(event, data) {
            Ok(packet) => {
                let result = operators.ns.adapter.broadcast(packet, operators.opts);
                result
            },
            Err(error) => Err(BroadcastError::Serialize(error)),
        }
    }

    /// Emits a message to all sockets selected with the previous operators and return a stream of acknowledgements.
    ///
    /// Each acknowledgement has a timeout specified in the config (5s by default) or with the `timeout()` operator.
    pub fn emit_with_ack(self, event: Cow<'static, str>, data: Value) -> (result: Result<
        A::AckStream,
        BroadcastError<A::Error>,
    >)
        ensures
            exists|packet: Packet|
                {
                    &&& is_event_packet(packet, self.ns().path, event, data, self.binary())
                    &&& #[trigger] call_ensures(
                        A::broadcast_with_ack,
                        (&self.ns().adapter, packet, self.opts()),
                        result,
                    )
                },
    {
        self.emit_with_ack_serialized(event, to_value(data))
    }

    /// Emits a message whose data is what came of serialising it, and returns a
    /// stream of acknowledgements.
    pub fn emit_with_ack_serialized(
        self,
        event: Cow<'static, str>,
        data: Result<Value, serde_json::Error>,
    ) -> (result: Result<A::AckStream, BroadcastError<A::Error>>)
        ensures
            match data {
                Ok(data) => exists|packet: Packet|
                    {
                        &&& is_event_packet(packet, self.ns().path, event, data, self.binary())
                        &&& #[trigger] call_ensures(
                            A::broadcast_with_ack,
                            (&self.ns().adapter, packet, self.opts()),
                            result,
                        )
                    },
                Err(error) => result == Err::<A::AckStream, BroadcastError<A::Error>>(
                    BroadcastError::Serialize(error),
                ),
            },
    {
        let mut operators = self;
        match operators.get_packet(event, data) {
            Ok(packet) => operators.ns.adapter.broadcast_with_ack(packet, operators.opts),
            Err(error) => Err(BroadcastError::Serialize(error)),
        }
    }

    /// Gets all sockets selected with the previous operators.
    ///
    /// It can be used to retrieve any extension data (with the `extensions` feature enabled) from the sockets or to make some sockets join other rooms.
    pub fn sockets(self) -> (sockets: Result<Vec<A::Socket>, A::Error>)
        ensures
            call_ensures(A::fetch_sockets, (&self.ns().adapter, self.opts()), sockets),
    {
        self.ns.adapter.fetch_sockets(self.opts)
    }

    /// Disconnects all sockets selected with the previous operators.
    pub fn disconnect(self) -> (result: Result<(), BroadcastError<A::Error>>)
        ensures
            call_ensures(A::disconnect_socket, (&self.ns().adapter, self.opts()), result),
    {
        self.ns.adapter.disconnect_socket(self.opts)
    }

    /// Makes all sockets selected with the previous operators join the given room(s).
    pub fn join<R: RoomParam>(self, rooms: R) -> (result: Result<(), A::Error>)
        ensures
            call_ensures(A::add_sockets::<R>, (&self.ns().adapter, self.opts(), rooms), result),
    {
        self.ns.adapter.add_sockets(self.opts, rooms)
    }

    /// Makes all sockets selected with the previous operators leave the given room(s).
    pub fn leave<R: RoomParam>(self, rooms: R) -> (result: Result<(), A::Error>)
        ensures
            call_ensures(A::del_sockets::<R>, (&self.ns().adapter, self.opts(), rooms), result),
    {
        self.ns.adapter.del_sockets(self.opts, rooms)
    }

    /// Creates a packet with the given event and data.
    pub fn get_packet(
        &mut self,
        event: Cow<'static, str>,
        data: Result<Value, serde_json::Error>,
    ) -> (packet: Result<Packet, serde_json::Error>)
        ensures
            final(self).opts() == old(self).opts(),
            final(self).ns() == old(self).ns(),
            match data {
                Ok(data) => {
                    &&& packet is Ok
                    &&& is_event_packet(
                        packet->Ok_0,
                        old(self).ns().path,
                        event,
                        data,
                        old(self).binary(),
                    )
                    &&& final(self).binary()@.len() == 0
                },
                Err(error) => {
                    &&& packet == Err::<Packet, serde_json::Error>(error)
                    &&& final(self).binary() == old(self).binary()
                },
            },
    {
        match data {
            Ok(data) => {
                let ns = copy_text(&self.ns.path);
                if self.binary.len() == 0 {
                    Ok(Packet::event(ns, event, data))
                } else {
                    let mut binary: Vec<Vec<u8>> = Vec::new();
                    std::mem::swap(&mut binary, &mut self.binary);
                    Ok(Packet::bin_event(ns, event, data, binary))
                }
            },
            Err(error) => Err(error),
        }
    }

    /// Whether all sockets but the current one are meant.
    pub fn is_broadcast(&self) -> (broadcast: bool)
        ensures
            broadcast == self.opts()@.is_broadcast(),
    {
        self.opts.flags.contains(&BroadcastFlags::Broadcast)
    }
}

} // verus!
