//! What holds of the layer as a whole, over the models of its state.
use crate::adapter::{
    room_names, share_room, Adapter, BroadcastFlags, BroadcastOptions, OptionsView, Room,
};
use crate::client::{
    added, delivers, made_available, Client, ConnectRequest, Delivery, DisconnectionView,
    SocketDataView, Visit,
};
use crate::config::SocketIoConfig;
use crate::handler::message::{
    Args, ArgsError, Extracted, FromMessage, FromMessageParts, GeneralMessage, MessageHandler,
};
use crate::handler::private::{Async, Sync, ViaParts};
use crate::handler::ConnectHandler;
use crate::json::json_is_null;
use crate::ns::Namespace;
use crate::operators::{is_event_packet, Operators, RoomParam};
use crate::packet::{
    payload_bytes, BinaryView, Packet, PacketData, PacketDataView, PacketView,
};
use crate::registry::{by_path, distinct_paths, lemma_by_path};
use crate::relay::set_once;
use crate::sid::sid_text;
use engineioxide::sid::Sid;
use serde_json::Value;
use std::borrow::Cow;
use std::future::Future;
use std::sync::Arc;
use std::time::Duration;
use vstd::prelude::*;

verus! {

/// A namespace is registered under its own path.
pub proof fn law_namespace_has_its_path<A: Adapter, C>(client: Client<A, C>, path: Seq<char>)
    requires
        client.namespaces().contains_key(path),
    ensures
        client.namespaces()[path].path@ == path,
{
    client.lemma_path(path);
}

/// A namespace that was added is found under its path, with its handler, and
/// every other path leads where it led before.
pub proof fn law_added_namespace_is_found<A: Adapter, C>(
    before: Map<Seq<char>, Arc<Namespace<A, C>>>,
    after: Map<Seq<char>, Arc<Namespace<A, C>>>,
    path: Seq<char>,
    handler: ConnectHandler<C>,
)
    requires
        added(before, after, path, handler),
    ensures
        after.contains_key(path),
        after[path].path@ == path,
        after[path].handler == handler,
        call_ensures(A::new, (), after[path].adapter),
        forall|other: Seq<char>|
            other != path ==> {
                &&& #[trigger] after.contains_key(other) == before.contains_key(other)
                &&& before.contains_key(other) ==> after[other] == before[other]
            },
{
}

/// Deleting a namespace undoes adding it, where there was none with its path.
pub proof fn law_delete_undoes_add<A: Adapter, C>(
    before: Map<Seq<char>, Arc<Namespace<A, C>>>,
    after: Map<Seq<char>, Arc<Namespace<A, C>>>,
    path: Seq<char>,
    handler: ConnectHandler<C>,
)
    requires
        added(before, after, path, handler),
    ensures
        after.remove(path) == before.remove(path),
        !before.contains_key(path) ==> after.remove(path) == before,
{
    assert(after.remove(path) =~= before.remove(path));
    if !before.contains_key(path) {
        assert(before.remove(path) =~= before);
    }
}

/// A socket never fails to find a namespace to connect to, and of two sockets that
/// ask for the same path the second one gets the namespace of the first one.
pub proof fn law_same_path_same_namespace<A: Adapter, C>(
    before: Map<Seq<char>, Arc<Namespace<A, C>>>,
    first: Map<Seq<char>, Arc<Namespace<A, C>>>,
    second: Map<Seq<char>, Arc<Namespace<A, C>>>,
    path: Seq<char>,
)
    requires
        made_available(before, first, path),
        made_available(first, second, path),
    ensures
        first.contains_key(path),
        second == first,
{
}

/// A socket that asks for a path makes at most the namespace with this path: one
/// that was not there has the path, relays its connections and has an adapter of
/// its own, and every other path leads where it led before.
pub proof fn law_connecting_adds_only_what_is_missing<A: Adapter, C>(
    before: Map<Seq<char>, Arc<Namespace<A, C>>>,
    after: Map<Seq<char>, Arc<Namespace<A, C>>>,
    path: Seq<char>,
)
    requires
        made_available(before, after, path),
    ensures
        after.contains_key(path),
        before.contains_key(path) ==> after[path] == before[path],
        !before.contains_key(path) ==> {
            &&& after[path].path@ == path
            &&& after[path].handler is Relay
            &&& call_ensures(A::new, (), after[path].adapter)
        },
        forall|other: Seq<char>|
            other != path ==> {
                &&& #[trigger] after.contains_key(other) == before.contains_key(other)
                &&& before.contains_key(other) ==> after[other] == before[other]
            },
{
}

/// A connection request asks the namespace for exactly the connection that the
/// socket asked for: with its own id and authentication data, the configuration
/// of the client, and a sender if and only if there is one, whatever the path.
pub proof fn law_connect_request_is_faithful<A: Adapter, C, M: Clone>(
    request: ConnectRequest<A, C, M>,
    ns: Arc<Namespace<A, C>>,
    sid: Sid,
    auth: Option<String>,
    config: Arc<SocketIoConfig>,
    sender: Option<M>,
)
    requires
        request.asks(ns, sid, auth, config, sender),
    ensures
        request.ns == ns,
        request.sid == sid,
        request.auth == auth,
        request.config == config,
        request.sender is Some <==> sender is Some,
        sender is Some ==> cloned(sender->0, request.sender->0),
{
}

/// Of two requests for the same connection, neither says anything that the other
/// one does not say.
pub proof fn law_connect_requests_agree<A: Adapter, C, M: Clone>(
    one: ConnectRequest<A, C, M>,
    other: ConnectRequest<A, C, M>,
    ns: Arc<Namespace<A, C>>,
    sid: Sid,
    auth: Option<String>,
    config: Arc<SocketIoConfig>,
)
    requires
        one.asks(ns, sid, auth, config, None),
        other.asks(ns, sid, auth, config, None),
    ensures
        one == other,
{
}

/// A packet is delivered if and only if a namespace is registered under its path,
/// whatever the packet holds: to that namespace, from the socket that sent it, with
/// all that it holds.
pub proof fn law_packet_is_delivered<A: Adapter, C>(
    delivery: Option<Delivery<A, C>>,
    namespaces: Map<Seq<char>, Arc<Namespace<A, C>>>,
    packet: PacketView,
    sid: Sid,
)
    requires
        delivers(delivery, namespaces, packet, sid),
    ensures
        delivery is Some <==> namespaces.contains_key(packet.ns),
        delivery is Some ==> {
            &&& delivery->0.ns == namespaces[packet.ns]
            &&& delivery->0.sid == sid
            &&& delivery->0.packet@ == packet.inner
        },
{
}

/// Each namespace of a list without equal paths is found under its path, and no
/// path leads anywhere else: whoever goes through the list meets every registered
/// namespace, and each of them once.
pub proof fn law_list_holds_each_namespace_once<A: Adapter, C>(list: Seq<Arc<Namespace<A, C>>>)
    requires
        distinct_paths(list),
    ensures
        forall|i: int|
            0 <= i < list.len() ==> {
                &&& by_path(list).contains_key((#[trigger] list[i]).path@)
                &&& by_path(list)[list[i].path@] == list[i]
            },
        forall|path: Seq<char>| #[trigger]
            by_path(list).contains_key(path) ==> exists|i: int|
                0 <= i < list.len() && (#[trigger] list[i]).path@ == path && by_path(list)[path]
                    == list[i],
        forall|i: int, j: int|
            0 <= i < list.len() && 0 <= j < list.len() && (#[trigger] list[i]).path@ == (
            #[trigger] list[j]).path@ ==> i == j,
{
    assert forall|i: int| 0 <= i < list.len() implies {
        &&& by_path(list).contains_key((#[trigger] list[i]).path@)
        &&& by_path(list)[list[i].path@] == list[i]
    } by {
        lemma_by_path(list, i);
    }
    assert forall|path: Seq<char>| #[trigger]
        by_path(list).contains_key(path) implies exists|i: int|
        0 <= i < list.len() && (#[trigger] list[i]).path@ == path && by_path(list)[path]
            == list[i] by {
        let k = choose|k: int| 0 <= k < list.len() && (#[trigger] list[k]).path@ == path;
        lemma_by_path(list, k);
        assert(list[k].path@ == path);
    }
    assert forall|i: int, j: int|
        0 <= i < list.len() && 0 <= j < list.len() && (#[trigger] list[i]).path@ == (
        #[trigger] list[j]).path@ implies i == j by {
        if i < j {
            assert(list[i].path@ != list[j].path@);
        } else if j < i {
            assert(list[j].path@ != list[i].path@);
        }
    }
}

/// A namespace that was registered keeps its handler when sockets connect, to
/// whatever path.
pub proof fn law_connecting_keeps_namespaces<A: Adapter, C>(
    before: Map<Seq<char>, Arc<Namespace<A, C>>>,
    after: Map<Seq<char>, Arc<Namespace<A, C>>>,
    asked: Seq<char>,
    path: Seq<char>,
)
    requires
        made_available(before, after, asked),
        before.contains_key(path),
    ensures
        after.contains_key(path),
        after[path] == before[path],
{
}

/// The first sender of the message channel stays, whatever client is made later.
pub proof fn law_first_sender_stays<M>(current: Option<M>, first: M, later: M)
    ensures
        set_once(set_once(current, first), later) == set_once(current, first),
        current is None ==> set_once(current, first) == Some(first),
        current is Some ==> set_once(current, first) == current,
{
}

/// The announcement of a connection carries the key of connections, the data that
/// the socket connected with and the socket, and that of a disconnection the key
/// of disconnections, no data and the socket. Neither carries anything else.
pub proof fn law_announcements_carry_their_socket<S: Clone>(
    message: GeneralMessage<S>,
    socket: S,
    data: Value,
)
    ensures
        message.announces_connect(socket, data) ==> {
            &&& message.key@ == "connect"@
            &&& message.value == data
            &&& cloned(socket, message.socket)
            &&& message.params@ == Seq::<Vec<u8>>::empty()
            &&& message.ack_id is None
        },
        message.announces_disconnect(socket) ==> {
            &&& message.key@ == "disconnect"@
            &&& json_is_null(message.value)
            &&& cloned(socket, message.socket)
            &&& message.params@ == Seq::<Vec<u8>>::empty()
            &&& message.ack_id is None
        },
{
}

/// What a packet holds is told by its model: the path, the kind of the packet, and
/// for each kind the names, the data, the ack id and the payloads, in their order.
pub proof fn law_model_of_a_packet_keeps_all(packet: Packet)
    ensures
        packet@.ns == packet.ns@,
        match packet.inner {
            PacketData::Connect(auth) => packet@.inner matches PacketDataView::Connect(text) && {
                &&& text is Some <==> auth is Some
                &&& auth is Some ==> text->0 == auth->0@
            },
            PacketData::Disconnect => packet@.inner is Disconnect,
            PacketData::Event(event, data, ack) => packet@.inner == PacketDataView::Event(
                event@,
                data,
                ack,
            ),
            PacketData::EventAck(data, ack) => packet@.inner == PacketDataView::EventAck(data, ack),
            PacketData::ConnectError => packet@.inner is ConnectError,
            PacketData::BinaryEvent(event, binary, ack) => packet@.inner
                matches PacketDataView::BinaryEvent(name, payloads, id) && {
                &&& name == event@
                &&& id == ack
                &&& payloads.data == binary.data
                &&& payloads.payload_count == binary.payload_count
                &&& payloads.bin.len() == binary.bin@.len()
                &&& forall|i: int|
                    0 <= i < binary.bin@.len() ==> #[trigger] payloads.bin[i] == binary.bin@[i]@
            },
            PacketData::BinaryAck(binary, ack) => packet@.inner matches PacketDataView::BinaryAck(
                payloads,
                id,
            ) && {
                &&& id == ack
                &&& payloads.data == binary.data
                &&& payloads.payload_count == binary.payload_count
                &&& payloads.bin.len() == binary.bin@.len()
                &&& forall|i: int|
                    0 <= i < binary.bin@.len() ==> #[trigger] payloads.bin[i] == binary.bin@[i]@
            },
        },
{
}

/// The bytes of payloads are those of each payload, in their order.
pub proof fn law_payload_bytes_keep_order(bin: Seq<Vec<u8>>)
    ensures
        payload_bytes(bin).len() == bin.len(),
        forall|i: int| 0 <= i < bin.len() ==> #[trigger] payload_bytes(bin)[i] == bin[i]@,
{
}

/// A new socket waits for nothing. Another packet does not touch the channel of the
/// connect timeout, and another channel does not touch the packet.
pub proof fn law_packet_and_timeout_are_apart<T>(
    data: SocketDataView<T>,
    packet: Option<PacketView>,
    tx: Option<T>,
)
    ensures
        SocketDataView::<T>::empty().partial_bin_packet is None,
        SocketDataView::<T>::empty().connect_recv_tx is None,
        data.with_partial(packet).partial_bin_packet == packet,
        data.with_partial(packet).connect_recv_tx == data.connect_recv_tx,
        data.with_connect_tx(tx).connect_recv_tx == tx,
        data.with_connect_tx(tx).partial_bin_packet == data.partial_bin_packet,
{
}

/// A payload that comes for a binary event goes behind the payloads that are there
/// and leaves all else as it is. With it the event is delivered if and only if it
/// has as many payloads as it announced, and then no packet waits any more.
pub proof fn law_payload_of_an_event<T>(
    data: SocketDataView<T>,
    ns: Seq<char>,
    event: Seq<char>,
    binary: BinaryView,
    ack: Option<i64>,
    payload: Seq<u8>,
)
    requires
        data.partial_bin_packet == Some(
            PacketView { inner: PacketDataView::BinaryEvent(event, binary, ack), ns },
        ),
    ensures
        ({
            let more = BinaryView {
                data: binary.data,
                bin: binary.bin.push(payload),
                payload_count: binary.payload_count,
            };
            let grown = PacketView { inner: PacketDataView::BinaryEvent(event, more, ack), ns };
            let complete = binary.bin.len() + 1 == binary.payload_count;
            &&& data.with_payload(payload).partial_bin_packet == Some(grown)
            &&& data.with_payload(payload).connect_recv_tx == data.connect_recv_tx
            &&& data.with_payload(payload).is_complete() == complete
            &&& data.receive(payload).1 == (if complete {
                Some(grown)
            } else {
                None
            })
            &&& data.receive(payload).0.partial_bin_packet == (if complete {
                None
            } else {
                Some(grown)
            })
            &&& data.receive(payload).0.connect_recv_tx == data.connect_recv_tx
        }),
{
}

/// A payload that comes for a binary acknowledgement goes behind the payloads that
/// are there and leaves all else as it is. With it the acknowledgement is delivered
/// if and only if it has as many payloads as it announced, and then no packet waits
/// any more.
pub proof fn law_payload_of_an_acknowledgement<T>(
    data: SocketDataView<T>,
    ns: Seq<char>,
    binary: BinaryView,
    ack: i64,
    payload: Seq<u8>,
)
    requires
        data.partial_bin_packet == Some(
            PacketView { inner: PacketDataView::BinaryAck(binary, ack), ns },
        ),
    ensures
        ({
            let more = BinaryView {
                data: binary.data,
                bin: binary.bin.push(payload),
                payload_count: binary.payload_count,
            };
            let grown = PacketView { inner: PacketDataView::BinaryAck(more, ack), ns };
            let complete = binary.bin.len() + 1 == binary.payload_count;
            &&& data.with_payload(payload).partial_bin_packet == Some(grown)
            &&& data.with_payload(payload).connect_recv_tx == data.connect_recv_tx
            &&& data.with_payload(payload).is_complete() == complete
            &&& data.receive(payload).1 == (if complete {
                Some(grown)
            } else {
                None
            })
            &&& data.receive(payload).0.partial_bin_packet == (if complete {
                None
            } else {
                Some(grown)
            })
            &&& data.receive(payload).0.connect_recv_tx == data.connect_recv_tx
        }),
{
}

/// A payload for which no packet waits changes nothing and delivers nothing.
pub proof fn law_payload_without_packet<T>(data: SocketDataView<T>, payload: Seq<u8>)
    requires
        data.partial_bin_packet is None,
    ensures
        data.with_payload(payload) == data,
        !data.with_payload(payload).is_complete(),
        data.receive(payload).0 == data,
        data.receive(payload).1 is None,
{
}

/// Nothing but a binary event or a binary acknowledgement ever waits for payloads.
pub proof fn law_only_binary_packets_wait<T>(data: SocketDataView<T>)
    ensures
        data.well_formed() <==> (data.partial_bin_packet is Some ==> {
            ||| data.partial_bin_packet->0.inner is BinaryEvent
            ||| data.partial_bin_packet->0.inner is BinaryAck
        }),
{
}

impl<T> SocketDataView<T> {
    /// After payloads came one after the other: the new state, and the packets that
    /// they completed.
    pub open spec fn receive_all(self, payloads: Seq<Seq<u8>>) -> (
        SocketDataView<T>,
        Seq<PacketView>,
    )
        decreases payloads.len(),
    {
        if payloads.len() == 0 {
            (self, seq![])
        } else {
            let (data, packets) = self.receive_all(payloads.drop_last());
            let (data, packet) = data.receive(payloads.last());
            (
                data,
                match packet {
                    Some(packet) => packets.push(packet),
                    None => packets,
                },
            )
        }
    }
}

impl PacketView {
    /// The packet with more payloads.
    pub open spec fn with_payloads(self, payloads: Seq<Seq<u8>>) -> PacketView {
        let binary = self.inner.binary();
        PacketView {
            inner: self.inner.with_binary(BinaryView { bin: binary.bin + payloads, ..binary }),
            ns: self.ns,
        }
    }
}

/// As long as payloads are missing, no packet is delivered, and the payloads
/// that came are kept in their order.
pub proof fn law_payloads_are_kept<T>(
    data: SocketDataView<T>,
    packet: PacketView,
    payloads: Seq<Seq<u8>>,
)
    requires
        packet.inner.is_binary(),
        data.partial_bin_packet == Some(packet),
        packet.inner.binary().bin.len() + payloads.len() < packet.inner.binary().payload_count,
    ensures
        data.receive_all(payloads).0 == data.with_partial(Some(packet.with_payloads(payloads))),
        data.receive_all(payloads).1 == Seq::<PacketView>::empty(),
    decreases payloads.len(),
{
    let binary = packet.inner.binary();
    if payloads.len() == 0 {
        assert(binary.bin + payloads =~= binary.bin);
        assert(packet.with_payloads(payloads) == packet);
    } else {
        let some = payloads.drop_last();
        law_payloads_are_kept(data, packet, some);
        assert((binary.bin + some).push(payloads.last()) =~= binary.bin + payloads);
        assert(packet.with_payloads(some).add_payload(payloads.last()) == packet.with_payloads(
            payloads,
        ));
    }
}

/// The last payload that was missing completes the packet: it is delivered, once,
/// with all payloads in the order in which they came, and no packet is being
/// received any more.
pub proof fn law_binary_packet_is_reassembled<T>(
    data: SocketDataView<T>,
    packet: PacketView,
    payloads: Seq<Seq<u8>>,
)
    requires
        packet.inner.is_binary(),
        data.partial_bin_packet == Some(packet),
        payloads.len() > 0,
        packet.inner.binary().bin.len() + payloads.len() == packet.inner.binary().payload_count,
    ensures
        data.receive_all(payloads).0 == data.with_partial(None),
        data.receive_all(payloads).1 == seq![packet.with_payloads(payloads)],
        packet.with_payloads(payloads).ns == packet.ns,
        packet.inner matches PacketDataView::BinaryEvent(event, binary, ack)
            ==> packet.with_payloads(payloads).inner == PacketDataView::BinaryEvent(
            event,
            BinaryView {
                data: binary.data,
                bin: binary.bin + payloads,
                payload_count: binary.payload_count,
            },
            ack,
        ),
        packet.inner matches PacketDataView::BinaryAck(binary, ack) ==> packet.with_payloads(
            payloads,
        ).inner == PacketDataView::BinaryAck(
            BinaryView {
                data: binary.data,
                bin: binary.bin + payloads,
                payload_count: binary.payload_count,
            },
            ack,
        ),
{
    let binary = packet.inner.binary();
    let some = payloads.drop_last();
    law_payloads_are_kept(data, packet, some);
    assert((binary.bin + some).push(payloads.last()) =~= binary.bin + payloads);
    assert(packet.with_payloads(some).add_payload(payloads.last()) == packet.with_payloads(
        payloads,
    ));
}

/// Payloads for which no packet is waiting are dropped.
pub proof fn law_unexpected_payloads_are_dropped<T>(
    data: SocketDataView<T>,
    payloads: Seq<Seq<u8>>,
)
    requires
        data.partial_bin_packet is None,
    ensures
        data.receive_all(payloads) == (data, Seq::<PacketView>::empty()),
    decreases payloads.len(),
{
    if payloads.len() > 0 {
        law_unexpected_payloads_are_dropped(data, payloads.drop_last());
    }
}

/// Whatever payload comes, the packet that is being received stays a binary one.
pub proof fn law_partial_packet_stays_binary<T>(data: SocketDataView<T>, payload: Seq<u8>)
    requires
        data.well_formed(),
    ensures
        data.receive(payload).0.well_formed(),
        data.receive(payload).1 matches Some(packet) ==> {
            &&& packet.inner.is_binary()
            &&& packet.inner.binary().is_complete()
        },
{
}

/// The channel of a connect timeout stays where it is while packets and payloads
/// come: when the socket connects at last, it is this timeout that is cancelled,
/// and what came meanwhile is kept.
pub proof fn law_connecting_cancels_the_timeout<T>(
    data: SocketDataView<T>,
    tx: T,
    packet: Option<PacketView>,
    payloads: Seq<Seq<u8>>,
)
    ensures
        data.with_connect_tx(Some(tx)).with_partial(packet).receive_all(payloads).0
            .connect_recv_tx == Some(tx),
        data.with_connect_tx(Some(tx)).with_partial(packet).receive_all(payloads).0.with_connect_tx(
            None,
        ) == data.with_connect_tx(None).with_partial(packet).receive_all(payloads).0,
    decreases payloads.len(),
{
    if payloads.len() > 0 {
        law_connecting_cancels_the_timeout(data, tx, packet, payloads.drop_last());
    }
}

/// A visit takes the first namespace away, and all of them if the socket could not
/// be closed there. The socket and the reason stay.
pub proof fn law_visit_takes_the_first_namespace<A: Adapter, C>(
    disconnection: DisconnectionView<A, C>,
    visit: Visit,
)
    ensures
        disconnection.step(visit).sid == disconnection.sid,
        disconnection.step(visit).reason == disconnection.reason,
        visit is Failed ==> disconnection.step(visit).todo.len() == 0,
        disconnection.todo.len() == 0 ==> disconnection.step(visit).todo.len() == 0,
        !(visit is Failed) && disconnection.todo.len() > 0 ==> disconnection.todo == seq![
            disconnection.todo[0],
        ] + disconnection.step(visit).todo,
{
    if !(visit is Failed) && disconnection.todo.len() > 0 {
        assert(disconnection.todo =~= seq![disconnection.todo[0]] + disconnection.step(visit).todo);
    }
}

impl<A: Adapter, C> DisconnectionView<A, C> {
    /// The namespaces that are visited when the visits end as given.
    pub open spec fn visits(self, outcomes: Seq<Visit>) -> Seq<Arc<Namespace<A, C>>>
        decreases outcomes.len(),
    {
        if outcomes.len() == 0 || self.todo.len() == 0 {
            seq![]
        } else {
            seq![self.todo[0]] + self.step(outcomes[0]).visits(outcomes.drop_first())
        }
    }
}

/// As long as no socket fails to close, the namespaces are visited in their
/// order, and all of them if there are as many outcomes.
pub proof fn law_disconnection_visits_in_order<A: Adapter, C>(
    disconnection: DisconnectionView<A, C>,
    outcomes: Seq<Visit>,
)
    requires
        outcomes.len() <= disconnection.todo.len(),
        forall|i: int| 0 <= i < outcomes.len() ==> !(#[trigger] outcomes[i] is Failed),
    ensures
        disconnection.visits(outcomes) == disconnection.todo.take(outcomes.len() as int),
    decreases outcomes.len(),
{
    let todo = disconnection.todo;
    if outcomes.len() > 0 {
        let rest = outcomes.drop_first();
        let next = disconnection.step(outcomes[0]);
        law_disconnection_visits_in_order(next, rest);
        assert(seq![todo[0]] + todo.drop_first().take(rest.len() as int) =~= todo.take(
            outcomes.len() as int,
        ));
    } else {
        assert(todo.take(0) =~= disconnection.visits(outcomes));
    }
}

/// After a socket failed to close, no other namespace is visited.
pub proof fn law_disconnection_stops_at_failure<A: Adapter, C>(
    disconnection: DisconnectionView<A, C>,
    before: Seq<Visit>,
    after: Seq<Visit>,
)
    requires
        before.len() < disconnection.todo.len(),
        forall|i: int| 0 <= i < before.len() ==> !(#[trigger] before[i] is Failed),
    ensures
        disconnection.visits(before + seq![Visit::Failed] + after) == disconnection.todo.take(
            before.len() as int + 1,
        ),
    decreases before.len(),
{
    let todo = disconnection.todo;
    let outcomes = before + seq![Visit::Failed] + after;
    if before.len() > 0 {
        let rest = before.drop_first();
        assert(outcomes.drop_first() =~= rest + seq![Visit::Failed] + after);
        assert(outcomes[0] == before[0]);
        law_disconnection_stops_at_failure(disconnection.step(before[0]), rest, after);
        assert(seq![todo[0]] + todo.drop_first().take(rest.len() as int + 1) =~= todo.take(
            before.len() as int + 1,
        ));
    } else {
        assert(outcomes[0] == Visit::Failed);
        let next = disconnection.step(Visit::Failed);
        assert(next.visits(outcomes.drop_first()) =~= seq![]);
        assert(disconnection.visits(outcomes) =~= todo.take(1));
    }
}

/// A room in one of two lists together is a room in one of them or in the other.
proof fn lemma_share_room(a: Seq<Seq<char>>, b: Seq<Seq<char>>, joined: Seq<Seq<char>>)
    ensures
        share_room(a + b, joined) <==> share_room(a, joined) || share_room(b, joined),
{
    let both = a + b;
    if share_room(both, joined) {
        let room = choose|room: Seq<char>| #[trigger] both.contains(room) && joined.contains(room);
        let k = choose|k: int| 0 <= k < both.len() && both[k] == room;
        if k < a.len() {
            assert(a[k] == room);
            assert(a.contains(room));
        } else {
            assert(b[k - a.len()] == room);
            assert(b.contains(room));
        }
    }
    if share_room(a, joined) {
        let room = choose|room: Seq<char>| #[trigger] a.contains(room) && joined.contains(room);
        let k = choose|k: int| 0 <= k < a.len() && a[k] == room;
        assert(both[k] == room);
        assert(both.contains(room));
    }
    if share_room(b, joined) {
        let room = choose|room: Seq<char>| #[trigger] b.contains(room) && joined.contains(room);
        let k = choose|k: int| 0 <= k < b.len() && b[k] == room;
        assert(both[a.len() + k] == room);
        assert(both.contains(room));
    }
}

/// Two lists share a room if and only if a room of the one is a room of the other.
pub proof fn law_shared_room_is_in_both_lists(a: Seq<Seq<char>>, b: Seq<Seq<char>>)
    ensures
        share_room(a, b) <==> exists|i: int, j: int|
            0 <= i < a.len() && 0 <= j < b.len() && #[trigger] a[i] == #[trigger] b[j],
{
    if share_room(a, b) {
        let room = choose|room: Seq<char>| #[trigger] a.contains(room) && b.contains(room);
        let i = choose|i: int| 0 <= i < a.len() && a[i] == room;
        let j = choose|j: int| 0 <= j < b.len() && b[j] == room;
        assert(a[i] == b[j]);
    }
    if exists|i: int, j: int|
        0 <= i < a.len() && 0 <= j < b.len() && #[trigger] a[i] == #[trigger] b[j] {
        let (i, j) = choose|i: int, j: int|
            0 <= i < a.len() && 0 <= j < b.len() && #[trigger] a[i] == #[trigger] b[j];
        assert(a.contains(a[i]));
        assert(b.contains(b[j]));
    }
}

/// Rooms are told by their names, one for one and in their order.
pub proof fn law_room_names_keep_order(rooms: Seq<Room>)
    ensures
        room_names(rooms).len() == rooms.len(),
        forall|i: int| 0 <= i < rooms.len() ==> #[trigger] room_names(rooms)[i] == rooms[i]@,
{
}

/// A single room stands for itself, whether it comes as a room, as a string, as a
/// literal, or as a session id, which stands for the room with its text.
pub proof fn law_single_room_is_itself(room: Room, string: String, text: &'static str, sid: Sid)
    ensures
        room.names() == seq![room@],
        string.names() == seq![string@],
        text.names() == seq![text@],
        sid.names() == seq![sid_text(sid)],
{
}

/// A list of rooms stands for each of its rooms, one for one and in their order,
/// whatever the list is made of.
pub proof fn law_room_list_is_each_of_its_rooms<const N: usize>(
    strings: Vec<String>,
    texts: Vec<&'static str>,
    rooms: Vec<Room>,
    text_array: [&'static str; N],
    string_array: [String; N],
)
    ensures
        strings.names().len() == strings@.len(),
        forall|i: int|
            0 <= i < strings@.len() ==> #[trigger] strings.names()[i] == strings@[i]@,
        texts.names().len() == texts@.len(),
        forall|i: int| 0 <= i < texts@.len() ==> #[trigger] texts.names()[i] == texts@[i]@,
        rooms.names().len() == rooms@.len(),
        forall|i: int| 0 <= i < rooms@.len() ==> #[trigger] rooms.names()[i] == rooms@[i]@,
        text_array.names().len() == N,
        forall|i: int| 0 <= i < N ==> #[trigger] text_array.names()[i] == text_array@[i]@,
        string_array.names().len() == N,
        forall|i: int| 0 <= i < N ==> #[trigger] string_array.names()[i] == string_array@[i]@,
{
}

/// The options are told by their rooms, those that are left out, their flags and
/// the current socket, and without operators there is nothing but the socket.
pub proof fn law_model_of_options_keeps_all(opts: BroadcastOptions, current: Option<Sid>)
    ensures
        opts@.rooms.len() == opts.rooms@.len(),
        forall|i: int| 0 <= i < opts.rooms@.len() ==> #[trigger] opts@.rooms[i] == opts.rooms@[i]@,
        opts@.except.len() == opts.except@.len(),
        forall|i: int|
            0 <= i < opts.except@.len() ==> #[trigger] opts@.except[i] == opts.except@[i]@,
        opts@.flags == opts.flags@,
        opts@.sid == opts.sid,
        OptionsView::new(current).rooms.len() == 0,
        OptionsView::new(current).except.len() == 0,
        OptionsView::new(current).flags == Set::<BroadcastFlags>::empty(),
        OptionsView::new(current).sid == current,
{
}

/// Each operator changes what it is for and nothing else: `to()` and `within()` put
/// their rooms behind the rooms, `except()` puts them behind those that are left
/// out, and each of the others, and `to()` and `except()` too, sets its flag.
pub proof fn law_operators_change_what_they_are_for(
    opts: OptionsView,
    rooms: Seq<Seq<char>>,
    timeout: Duration,
)
    ensures
        opts.to(rooms) == (OptionsView {
            rooms: opts.rooms + rooms,
            except: opts.except,
            flags: opts.flags.insert(BroadcastFlags::Broadcast),
            sid: opts.sid,
        }),
        opts.within(rooms) == (OptionsView {
            rooms: opts.rooms + rooms,
            except: opts.except,
            flags: opts.flags,
            sid: opts.sid,
        }),
        opts.except(rooms) == (OptionsView {
            rooms: opts.rooms,
            except: opts.except + rooms,
            flags: opts.flags.insert(BroadcastFlags::Broadcast),
            sid: opts.sid,
        }),
        opts.local() == (OptionsView {
            rooms: opts.rooms,
            except: opts.except,
            flags: opts.flags.insert(BroadcastFlags::Local),
            sid: opts.sid,
        }),
        opts.broadcast() == (OptionsView {
            rooms: opts.rooms,
            except: opts.except,
            flags: opts.flags.insert(BroadcastFlags::Broadcast),
            sid: opts.sid,
        }),
        opts.timeout(timeout) == (OptionsView {
            rooms: opts.rooms,
            except: opts.except,
            flags: opts.flags.insert(BroadcastFlags::Timeout(timeout)),
            sid: opts.sid,
        }),
        opts.is_broadcast() <==> opts.flags.contains(BroadcastFlags::Broadcast),
{
}

/// An operator on the options keeps the namespace and the binary payloads.
pub proof fn law_operators_keep_namespace_and_payloads<A: Adapter, C>(
    before: Operators<A, C>,
    after: Operators<A, C>,
    opts: OptionsView,
)
    requires
        after.changes_options(before, opts),
    ensures
        after.opts()@ == opts,
        after.ns() == before.ns(),
        after.binary() == before.binary(),
{
}

/// Which sockets are selected, in full. If rooms were given, a socket has to be in
/// one of them. It may not be in a room that was left out. With a broadcast it may
/// not be the current one, and without rooms and broadcast it has to be.
pub proof fn law_selection(opts: OptionsView, sid: Sid, joined: Seq<Seq<char>>)
    ensures
        opts.selects(sid, joined) <==> {
            &&& opts.rooms.len() > 0 ==> exists|i: int, j: int|
                0 <= i < opts.rooms.len() && 0 <= j < joined.len() && #[trigger] opts.rooms[i]
                    == #[trigger] joined[j]
            &&& forall|i: int, j: int|
                0 <= i < opts.except.len() && 0 <= j < joined.len() ==> #[trigger] opts.except[i]
                    != #[trigger] joined[j]
            &&& if opts.flags.contains(BroadcastFlags::Broadcast) {
                opts.sid != Some(sid)
            } else {
                opts.rooms.len() > 0 || opts.sid == Some(sid)
            }
        },
{
    law_shared_room_is_in_both_lists(opts.rooms, joined);
    law_shared_room_is_in_both_lists(opts.except, joined);
}

/// Without operators the current socket is selected, and no other.
pub proof fn law_no_operator_selects_the_current_socket(
    current: Option<Sid>,
    sid: Sid,
    joined: Seq<Seq<char>>,
)
    ensures
        OptionsView::new(current).selects(sid, joined) <==> current == Some(sid),
{
}

/// `to()` selects the sockets in the rooms that were given so far, but for those
/// in a room that was left out and for the current socket.
pub proof fn law_to_selects_rooms_but_current(
    opts: OptionsView,
    rooms: Seq<Seq<char>>,
    sid: Sid,
    joined: Seq<Seq<char>>,
)
    requires
        rooms.len() > 0,
    ensures
        opts.to(rooms).selects(sid, joined) <==> {
            &&& share_room(opts.rooms, joined) || share_room(rooms, joined)
            &&& !share_room(opts.except, joined)
            &&& opts.sid != Some(sid)
        },
{
    lemma_share_room(opts.rooms, rooms, joined);
}

/// `within()` selects the sockets in the rooms that were given so far, but for
/// those in a room that was left out. The current socket is no exception, unless
/// an operator before left it out.
pub proof fn law_within_selects_rooms(
    opts: OptionsView,
    rooms: Seq<Seq<char>>,
    sid: Sid,
    joined: Seq<Seq<char>>,
)
    requires
        rooms.len() > 0,
    ensures
        opts.within(rooms).selects(sid, joined) <==> {
            &&& share_room(opts.rooms, joined) || share_room(rooms, joined)
            &&& !share_room(opts.except, joined)
            &&& opts.is_broadcast() ==> opts.sid != Some(sid)
        },
{
    lemma_share_room(opts.rooms, rooms, joined);
}

/// Without a current socket, `to()` and `within()` select the same sockets.
pub proof fn law_to_is_within_for_namespace(
    opts: OptionsView,
    rooms: Seq<Seq<char>>,
    sid: Sid,
    joined: Seq<Seq<char>>,
)
    requires
        opts.sid is None,
        rooms.len() > 0,
    ensures
        opts.to(rooms).selects(sid, joined) == opts.within(rooms).selects(sid, joined),
{
}

/// `except()` filters out the sockets in the given rooms from those that were
/// selected before, and with them the current socket.
pub proof fn law_except_filters_out_rooms(
    opts: OptionsView,
    rooms: Seq<Seq<char>>,
    sid: Sid,
    joined: Seq<Seq<char>>,
)
    requires
        opts.rooms.len() > 0 || opts.is_broadcast(),
    ensures
        opts.except(rooms).selects(sid, joined) <==> {
            &&& opts.selects(sid, joined)
            &&& !share_room(rooms, joined)
            &&& opts.sid != Some(sid)
        },
{
    lemma_share_room(opts.except, rooms, joined);
}

/// `except()` alone selects all sockets but the current one and those in the given
/// rooms.
pub proof fn law_except_alone_selects_the_others(
    current: Option<Sid>,
    rooms: Seq<Seq<char>>,
    sid: Sid,
    joined: Seq<Seq<char>>,
)
    ensures
        OptionsView::new(current).except(rooms).selects(sid, joined) <==> {
            &&& !share_room(rooms, joined)
            &&& current != Some(sid)
        },
{
    assert(OptionsView::new(current).except + rooms =~= rooms);
}

/// `broadcast()` alone selects all sockets but the current one, whatever rooms
/// they are in.
pub proof fn law_broadcast_selects_all_but_current(
    current: Option<Sid>,
    sid: Sid,
    joined: Seq<Seq<char>>,
)
    ensures
        OptionsView::new(current).broadcast().selects(sid, joined) <==> current != Some(sid),
{
}

/// `local()` and `timeout()` change nothing in the selection.
pub proof fn law_local_and_timeout_select_nothing(
    opts: OptionsView,
    timeout: Duration,
    sid: Sid,
    joined: Seq<Seq<char>>,
)
    ensures
        opts.local().selects(sid, joined) == opts.selects(sid, joined),
        opts.timeout(timeout).selects(sid, joined) == opts.selects(sid, joined),
{
}

/// The order of two operators does not matter for the selection, and where one of
/// them gives no rooms or they give rooms for different ends, not for the options
/// either.
pub proof fn law_operators_commute(
    opts: OptionsView,
    a: Seq<Seq<char>>,
    b: Seq<Seq<char>>,
    first: Duration,
    second: Duration,
    sid: Sid,
    joined: Seq<Seq<char>>,
)
    ensures
        opts.to(a).to(b).selects(sid, joined) == opts.to(b).to(a).selects(sid, joined),
        opts.to(a).within(b).selects(sid, joined) == opts.within(b).to(a).selects(sid, joined),
        opts.within(a).within(b).selects(sid, joined) == opts.within(b).within(a).selects(
            sid,
            joined,
        ),
        opts.except(a).except(b).selects(sid, joined) == opts.except(b).except(a).selects(
            sid,
            joined,
        ),
        opts.to(a).except(b) == opts.except(b).to(a),
        opts.within(a).except(b) == opts.except(b).within(a),
        opts.to(a).broadcast() == opts.broadcast().to(a),
        opts.within(a).broadcast() == opts.broadcast().within(a),
        opts.except(a).broadcast() == opts.broadcast().except(a),
        opts.to(a).local() == opts.local().to(a),
        opts.within(a).local() == opts.local().within(a),
        opts.except(a).local() == opts.local().except(a),
        opts.broadcast().local() == opts.local().broadcast(),
        opts.to(a).timeout(first) == opts.timeout(first).to(a),
        opts.within(a).timeout(first) == opts.timeout(first).within(a),
        opts.except(a).timeout(first) == opts.timeout(first).except(a),
        opts.broadcast().timeout(first) == opts.timeout(first).broadcast(),
        opts.local().timeout(first) == opts.timeout(first).local(),
        opts.timeout(first).timeout(second) == opts.timeout(second).timeout(first),
{
    lemma_share_room(opts.rooms + a, b, joined);
    lemma_share_room(opts.rooms + b, a, joined);
    lemma_share_room(opts.rooms, a, joined);
    lemma_share_room(opts.rooms, b, joined);
    lemma_share_room(opts.except + a, b, joined);
    lemma_share_room(opts.except + b, a, joined);
    lemma_share_room(opts.except, a, joined);
    lemma_share_room(opts.except, b, joined);
    assert(opts.to(a).except(b) =~= opts.except(b).to(a));
    assert(opts.within(a).except(b) =~= opts.except(b).within(a));
    assert(opts.to(a).broadcast() =~= opts.broadcast().to(a));
    assert(opts.within(a).broadcast() =~= opts.broadcast().within(a));
    assert(opts.except(a).broadcast() =~= opts.broadcast().except(a));
    assert(opts.to(a).local() =~= opts.local().to(a));
    assert(opts.within(a).local() =~= opts.local().within(a));
    assert(opts.except(a).local() =~= opts.local().except(a));
    assert(opts.broadcast().local() =~= opts.local().broadcast());
    assert(opts.to(a).timeout(first) =~= opts.timeout(first).to(a));
    assert(opts.within(a).timeout(first) =~= opts.timeout(first).within(a));
    assert(opts.except(a).timeout(first) =~= opts.timeout(first).except(a));
    assert(opts.broadcast().timeout(first) =~= opts.timeout(first).broadcast());
    assert(opts.local().timeout(first) =~= opts.timeout(first).local());
    assert(opts.timeout(first).timeout(second) =~= opts.timeout(second).timeout(first));
}

/// An acknowledgement is awaited as long as `timeout()` says, and as long as the
/// configuration says without it.
pub proof fn law_timeout_is_the_one_that_was_set(
    opts: OptionsView,
    configured: Duration,
    timeout: Duration,
    waited: Duration,
)
    requires
        forall|other: Duration| !#[trigger]
            opts.flags.contains(BroadcastFlags::Timeout(other)),
    ensures
        !opts.has_timeout(),
        opts.timeout(timeout).has_timeout(),
        opts.may_wait(configured, waited) <==> waited == configured,
        opts.timeout(timeout).may_wait(configured, waited) <==> waited == timeout,
{
    assert(opts.timeout(timeout).flags.contains(BroadcastFlags::Timeout(timeout)));
}

/// If timeouts were set, an acknowledgement is awaited as long as one of them says,
/// and never as long as the configuration says instead.
pub proof fn law_set_timeouts_replace_the_configured_one(
    opts: OptionsView,
    configured: Duration,
    timeout: Duration,
    waited: Duration,
)
    requires
        opts.flags.contains(BroadcastFlags::Timeout(timeout)),
    ensures
        opts.has_timeout(),
        opts.may_wait(configured, waited) <==> opts.flags.contains(
            BroadcastFlags::Timeout(waited),
        ),
{
}

/// An emitted packet carries the event name and the data that were given, for the
/// namespace of the operators, and asks for no acknowledgement by itself, however
/// many binary payloads there are. Without payloads it is a plain event, with them
/// a binary event that carries these payloads and announces their number.
pub proof fn law_emitted_packet_carries_event_and_data(
    packet: Packet,
    path: Cow<'static, str>,
    event: Cow<'static, str>,
    data: Value,
    binary: Vec<Vec<u8>>,
)
    requires
        is_event_packet(packet, path, event, data, binary),
    ensures
        packet.ns == path,
        binary@.len() == 0 ==> {
            &&& packet.inner == PacketData::Event(event, data, None)
            &&& packet@.inner == PacketDataView::Event(event@, data, None)
        },
        binary@.len() > 0 ==> {
            &&& packet.inner matches PacketData::BinaryEvent(name, payloads, ack)
            &&& name == event
            &&& ack is None
            &&& payloads.data == data
            &&& payloads.bin == binary
            &&& payloads.payload_count == binary@.len()
        },
        binary@.len() > 0 ==> {
            &&& packet@.inner matches PacketDataView::BinaryEvent(name, payloads, ack)
            &&& name == event@
            &&& ack is None
            &&& payloads.data == data
            &&& payloads.bin.len() == binary@.len()
            &&& forall|i: int|
                0 <= i < binary@.len() ==> #[trigger] payloads.bin[i] == binary@[i]@
            &&& payloads.payload_count == binary@.len()
        },
{
}

/// An emitted message goes to the namespace of its operators, as a packet that is
/// complete: with binary payloads it is a binary event that holds all of them in
/// their order, and without it is none.
pub proof fn law_emitted_packet_is_complete(
    packet: Packet,
    path: Cow<'static, str>,
    event: Cow<'static, str>,
    data: Value,
    binary: Vec<Vec<u8>>,
)
    requires
        is_event_packet(packet, path, event, data, binary),
    ensures
        packet@.ns == path@,
        packet@.inner.is_binary() <==> binary@.len() > 0,
        binary@.len() > 0 ==> {
            &&& packet@.inner.binary().is_complete()
            &&& packet@.inner.binary().bin == payload_bytes(binary@)
        },
{
}

/// What extracts a part of a message extracts it from a whole message too.
pub proof fn law_parts_are_extracted_from_messages<S, T: FromMessageParts<S>>(
    s: S,
    v: Value,
    p: Vec<Vec<u8>>,
    ack_id: Option<i64>,
    part: Result<T, T::Error>,
    v_left: Value,
    p_left: Vec<Vec<u8>>,
)
    requires
        T::extracts_part(s, v, p, ack_id, part, v_left, p_left),
    ensures
        <T as FromMessage<S, ViaParts>>::extracts(s, v, p, ack_id, part),
{
}

/// What is extracted from a whole message via its parts is what the extractor gives
/// for exactly this message: its socket, its value, its binary data and its ack id.
pub proof fn law_message_is_extracted_as_it_came<S, T: FromMessageParts<S>>(
    s: S,
    v: Value,
    p: Vec<Vec<u8>>,
    ack_id: Option<i64>,
    extracted: Result<T, T::Error>,
)
    requires
        <T as FromMessage<S, ViaParts>>::extracts(s, v, p, ack_id, extracted),
    ensures
        exists|v_left: Value, p_left: Vec<Vec<u8>>| #[trigger]
            T::extracts_part(s, v, p, ack_id, extracted, v_left, p_left),
{
}

/// The arguments of a handler are extracted in turn: the first one from the message
/// as it came, the others from what the first one left of it, all of them with the
/// socket and the ack id of the message. The first error is the one that comes out.
pub proof fn law_arguments_are_extracted_in_turn<
    S,
    M,
    T: FromMessageParts<S>,
    R: FromMessage<S, M>,
>(
    s: S,
    v: Value,
    p: Vec<Vec<u8>>,
    ack_id: Option<i64>,
    extracted: Extracted<S, (ViaParts, M), Args<T, R>>,
)
    requires
        <Args<T, R> as FromMessage<S, (ViaParts, M)>>::extracts(s, v, p, ack_id, extracted),
    ensures
        extracted is Ok ==> exists|v_left: Value, p_left: Vec<Vec<u8>>|
            {
                &&& #[trigger] T::extracts_part(
                    s,
                    v,
                    p,
                    ack_id,
                    Ok(extracted->Ok_0.0),
                    v_left,
                    p_left,
                )
                &&& R::extracts(s, v_left, p_left, ack_id, Ok(extracted->Ok_0.1))
            },
        extracted is Err && extracted->Err_0 is First ==> exists|
            v_left: Value,
            p_left: Vec<Vec<u8>>,
        | #[trigger]
            T::extracts_part(s, v, p, ack_id, Err(extracted->Err_0->First_0), v_left, p_left),
        extracted is Err && extracted->Err_0 is Rest ==> exists|
            first: T,
            v_left: Value,
            p_left: Vec<Vec<u8>>,
        |
            {
                &&& #[trigger] T::extracts_part(s, v, p, ack_id, Ok(first), v_left, p_left)
                &&& R::extracts(s, v_left, p_left, ack_id, Err(extracted->Err_0->Rest_0))
            },
{
    let (start, v_left, p_left) = choose|
        start: Result<T, T::Error>,
        v_left: Value,
        p_left: Vec<Vec<u8>>,
    |
        {
            &&& #[trigger] T::extracts_part(s, v, p, ack_id, start, v_left, p_left)
            &&& match start {
                Ok(first) => exists|rest: Extracted<S, M, R>|
                    {
                        &&& #[trigger] R::extracts(s, v_left, p_left, ack_id, rest)
                        &&& extracted == (match rest {
                            Ok(rest) => Ok::<_, ArgsError<T::Error, R::Error>>(Args(first, rest)),
                            Err(error) => Err(ArgsError::Rest(error)),
                        })
                    },
                Err(error) => extracted == Err::<Args<T, R>, _>(
                    ArgsError::<T::Error, R::Error>::First(error),
                ),
            }
        };
    match start {
        Ok(first) => {
            assert(start == Ok::<T, T::Error>(first));
            assert(T::extracts_part(s, v, p, ack_id, Ok(first), v_left, p_left));
            let end = choose|end: Extracted<S, M, R>|
                {
                    &&& #[trigger] R::extracts(s, v_left, p_left, ack_id, end)
                    &&& extracted == (match end {
                        Ok(rest) => Ok::<_, ArgsError<T::Error, R::Error>>(Args(first, rest)),
                        Err(error) => Err(ArgsError::Rest(error)),
                    })
                };
            match end {
                Ok(rest) => {
                    assert(end == Ok::<R, R::Error>(rest));
                    assert(extracted == Ok::<Args<T, R>, ArgsError<T::Error, R::Error>>(
                        Args(first, rest),
                    ));
                    assert(extracted->Ok_0.0 == first && extracted->Ok_0.1 == rest);
                },
                Err(error) => {
                    assert(end == Err::<R, R::Error>(error));
                    assert(extracted == Err::<Args<T, R>, ArgsError<T::Error, R::Error>>(
                        ArgsError::Rest(error),
                    ));
                    assert(extracted->Err_0 is Rest && extracted->Err_0->Rest_0 == error);
                },
            }
        },
        Err(error) => {
            assert(start == Err::<T, T::Error>(error));
            assert(T::extracts_part(s, v, p, ack_id, Err(error), v_left, p_left));
            assert(extracted->Err_0 is First && extracted->Err_0->First_0 == error);
        },
    }
}

/// If one of the arguments of a handler cannot be extracted, none of them is
/// handed to it: neither if the first one fails, nor if one of the others does.
pub proof fn law_one_failure_ends_extraction<S, M, T: FromMessageParts<S>, R: FromMessage<S, M>>(
    s: S,
    v: Value,
    p: Vec<Vec<u8>>,
    ack_id: Option<i64>,
    extracted: Extracted<S, (ViaParts, M), Args<T, R>>,
)
    requires
        <Args<T, R> as FromMessage<S, (ViaParts, M)>>::extracts(s, v, p, ack_id, extracted),
        forall|first: Result<T, T::Error>, v_left: Value, p_left: Vec<Vec<u8>>| #[trigger]
            T::extracts_part(s, v, p, ack_id, first, v_left, p_left) ==> first is Err || (forall|
                rest: Extracted<S, M, R>,
            |
                #[trigger] R::extracts(s, v_left, p_left, ack_id, rest) ==> rest is Err),
    ensures
        extracted is Err,
{
}

/// A sync handler is called if and only if its argument was extracted.
pub proof fn law_handler_is_called_on_success<S, M, F, T>(
    handler: F,
    s: S,
    v: Value,
    p: Vec<Vec<u8>>,
    ack_id: Option<i64>,
    output: Option<()>,
) where
    F: FnOnce(T) + Send + std::marker::Sync + Clone + 'static,
    T: FromMessage<S, M> + Send,

    requires
        <F as MessageHandler<S, (Sync, M, T)>>::handles(&handler, s, v, p, ack_id, output),
    ensures
        (forall|extracted: Extracted<S, M, T>| #[trigger]
            T::extracts(s, v, p, ack_id, extracted) ==> extracted is Err) ==> output is None,
        (forall|extracted: Extracted<S, M, T>| #[trigger]
            T::extracts(s, v, p, ack_id, extracted) ==> extracted is Ok) ==> output is Some,
{
}

/// An async handler is called, for its future, if and only if its argument was extracted.
pub proof fn law_async_handler_is_called_on_success<S, M, F, Fut, T>(
    handler: F,
    s: S,
    v: Value,
    p: Vec<Vec<u8>>,
    ack_id: Option<i64>,
    output: Option<Fut>,
) where
    F: FnOnce(T) -> Fut + Send + std::marker::Sync + Clone + 'static,
    Fut: Future<Output = ()> + Send + 'static,
    T: FromMessage<S, M> + Send,

    requires
        <F as MessageHandler<S, (Async, M, T)>>::handles(&handler, s, v, p, ack_id, output),
    ensures
        (forall|extracted: Extracted<S, M, T>| #[trigger]
            T::extracts(s, v, p, ack_id, extracted) ==> extracted is Err) ==> output is None,
        (forall|extracted: Extracted<S, M, T>| #[trigger]
            T::extracts(s, v, p, ack_id, extracted) ==> extracted is Ok) ==> output is Some,
{
}

} // verus!
