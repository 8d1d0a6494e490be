//! The [`Client`] keeps the namespaces and decides what becomes of the events of
//! the transport sockets.
use crate::adapter::Adapter;
use crate::config::SocketIoConfig;
use crate::errors::{DisconnectReason, NamespaceError};
use crate::handler::ConnectHandler;
use crate::ns::Namespace;
use crate::packet::{BinaryPacket, Packet, PacketData, PacketView};
use crate::registry::{
    by_path, distinct_paths, has_path, lemma_by_path, lemma_pushed, lemma_removed, lemma_replaced,
};
use crate::relay::{set_once, SenderCell};
use engineioxide::sid::Sid;
use std::borrow::Cow;
use std::sync::Arc;
use std::time::Duration;
use vstd::pervasive::unreached;
use vstd::prelude::*;

verus! {

/// The version of the socket.io protocol that a transport socket speaks.
#[derive(Debug, Clone, Copy, PartialEq, Eq, Structural)]
pub enum ProtocolVersion {
    /// Every socket is connected to the default namespace
    V4,
    /// A socket connects to the namespaces it wants
    V5,
}

/// The namespaces `after` a new one was added to those from `before`. It takes the
/// place of one with the same path.
pub open spec fn added<A: Adapter, C>(
    before: Map<Seq<char>, Arc<Namespace<A, C>>>,
    after: Map<Seq<char>, Arc<Namespace<A, C>>>,
    path: Seq<char>,
    handler: ConnectHandler<C>,
) -> bool {
    &&& after.contains_key(path)
    &&& after[path].is_new(path, handler)
    &&& after == before.insert(path, after[path])
}

/// The namespaces, and the configuration that each of them gets.
#[derive(Debug)]
pub struct Client<A: Adapter, C> {
    pub(crate) config: Arc<SocketIoConfig>,
    ns: Vec<Arc<Namespace<A, C>>>,
}

impl<A: Adapter, C> Client<A, C> {
    /// No two namespaces have the same path.
    #[verifier::type_invariant]
    spec fn well_formed(self) -> bool {
        distinct_paths(self.ns@)
    }

    /// The configuration of the client.
    pub closed spec fn config(self) -> Arc<SocketIoConfig> {
        self.config
    }

    /// The namespaces by their paths.
    pub closed spec fn namespaces(self) -> Map<Seq<char>, Arc<Namespace<A, C>>> {
        by_path(self.ns@)
    }

    /// A namespace is registered under its own path.
    pub(crate) proof fn lemma_path(self, path: Seq<char>)
        requires
            self.namespaces().contains_key(path),
        ensures
            self.namespaces()[path].path@ == path,
    {
        assert(has_path(self.ns@, path));
    }

    /// A client without namespaces. The sender becomes that of the message channel,
    /// unless there is one already.
    pub fn new<M>(
        config: Arc<SocketIoConfig>,
        message_sender: M,
        cell: &mut SenderCell<M>,
    ) -> (client: Client<A, C>)
        ensures
            client.config() == config,
            client.namespaces() == Map::<Seq<char>, Arc<Namespace<A, C>>>::empty(),
            final(cell)@ == set_once(old(cell)@, message_sender),
    {
        cell.get_or_init(message_sender);
        let client = Client { config, ns: Vec::new() };
        assert(client.namespaces() =~= Map::<Seq<char>, Arc<Namespace<A, C>>>::empty());
        client
    }

    /// Where the namespace with the path stands.
    fn position(&self, path: &str) -> (found: Option<usize>)
        ensures
            match found {
                Some(i) => i < self.ns@.len() && self.ns@[i as int].path@ == path@,
                None => !has_path(self.ns@, path@),
            },
    {
        let wanted = path.to_owned();
        for i in 0..self.ns.len()
            invariant
                wanted@ == path@,
                forall|j: int| 0 <= j < i ==> (#[trigger] self.ns@[j]).path@ != path@,
        {
            let own: String = match &self.ns[i].path {
                Cow::Borrowed(name) => (*name).to_owned(),
                Cow::Owned(name) => name.clone(),
            };
            if own == wanted {
                return Some(i);
            }
        }
        None
    }

    /// Adds a new namespace handler
    pub fn add_ns(&mut self, path: Cow<'static, str>, callback: ConnectHandler<C>)
        ensures
            final(self).config() == old(self).config(),
            added(old(self).namespaces(), final(self).namespaces(), path@, callback),
    {
        proof {
            use_type_invariant(&*self);
        }
        let key: String = match &path {
            Cow::Borrowed(name) => (*name).to_owned(),
            Cow::Owned(name) => name.clone(),
        };
        let found = self.position(key.as_str());
        let ns = Namespace::new(path, callback);
        let mut list: Vec<Arc<Namespace<A, C>>> = Vec::new();
        std::mem::swap(&mut list, &mut self.ns);
        let ghost before = list@;
        match found {
            Some(i) => {
                list.set(i, ns);
                proof {
                    lemma_replaced(before, i as int, ns);
                }
            },
            None => {
                list.push(ns);
                proof {
                    lemma_pushed(before, ns);
                }
            },
        }
        self.ns = list;
    }

    /// Deletes a namespace handler
    pub fn delete_ns(&mut self, path: &str)
        ensures
            final(self).config() == old(self).config(),
            final(self).namespaces() == old(self).namespaces().remove(path@),
    {
        proof {
            use_type_invariant(&*self);
        }
        match self.position(path) {
            Some(i) => {
                let mut list: Vec<Arc<Namespace<A, C>>> = Vec::new();
                std::mem::swap(&mut list, &mut self.ns);
                let ghost before = list@;
                list.remove(i);
                proof {
                    lemma_removed(before, i as int);
                }
                self.ns = list;
            },
            None => {
                assert(self.namespaces().remove(path@) =~= self.namespaces());
            },
        }
    }

    /// The namespace with the path.
    pub fn get_ns(&self, path: &str) -> (ns: Option<Arc<Namespace<A, C>>>)
        ensures
            ns == (if self.namespaces().contains_key(path@) {
                Some(self.namespaces()[path@])
            } else {
                None
            }),
    {
        proof {
            use_type_invariant(self);
        }
        match self.position(path) {
            Some(i) => {
                proof {
                    lemma_by_path(self.ns@, i as int);
                }
                Some(self.ns[i].clone())
            },
            None => None,
        }
    }
}

/// The state that belongs to one transport socket.
#[derive(Debug)]
pub struct SocketData<T> {
    partial_bin_packet: Option<Packet>,
    connect_recv_tx: Option<T>,
}

/// The model of [`SocketData`].
#[verifier::ext_equal]
pub struct SocketDataView<T> {
    /// Partial binary packet that is being received
    /// Stored here until all the binary payloads are received
    pub partial_bin_packet: Option<PacketView>,
    /// Channel used to notify the socket that it has been connected to a namespace for v5
    pub connect_recv_tx: Option<T>,
}

impl<T> View for SocketData<T> {
    type V = SocketDataView<T>;

    closed spec fn view(&self) -> SocketDataView<T> {
        SocketDataView {
            partial_bin_packet: match self.partial_bin_packet {
                Some(packet) => Some(packet@),
                None => None,
            },
            connect_recv_tx: self.connect_recv_tx,
        }
    }
}

impl<T> SocketDataView<T> {
    /// No packet is being received, and nobody waits for the socket to connect.
    pub open spec fn empty() -> SocketDataView<T> {
        SocketDataView { partial_bin_packet: None, connect_recv_tx: None }
    }

    /// The packet that is being received is a binary one.
    pub open spec fn well_formed(self) -> bool {
        self.partial_bin_packet matches Some(packet) ==> packet.inner.is_binary()
    }

    /// Another packet is being received.
    pub open spec fn with_partial(self, packet: Option<PacketView>) -> SocketDataView<T> {
        SocketDataView { partial_bin_packet: packet, ..self }
    }

    /// Another channel waits for the socket to connect.
    pub open spec fn with_connect_tx(self, tx: Option<T>) -> SocketDataView<T> {
        SocketDataView { connect_recv_tx: tx, ..self }
    }

    /// The packet that is being received got one more payload.
    pub open spec fn with_payload(self, payload: Seq<u8>) -> SocketDataView<T> {
        match self.partial_bin_packet {
            Some(packet) => self.with_partial(Some(packet.add_payload(payload))),
            None => self,
        }
    }

    /// The packet that is being received has all its payloads.
    pub open spec fn is_complete(self) -> bool {
        self.partial_bin_packet matches Some(packet) && packet.inner.binary().is_complete()
    }

    /// After a payload came: the new state, and the packet that it completed.
    pub open spec fn receive(self, payload: Seq<u8>) -> (SocketDataView<T>, Option<PacketView>) {
        let received = self.with_payload(payload);
        if received.is_complete() {
            (received.with_partial(None), received.partial_bin_packet)
        } else {
            (received, None)
        }
    }
}

impl<T> Default for SocketData<T> {
    fn default() -> (data: SocketData<T>)
        ensures
            data@ == SocketDataView::<T>::empty(),
    {
        SocketData { partial_bin_packet: None, connect_recv_tx: None }
    }
}

impl<T> SocketData<T> {
    /// The packet that is being received is a binary one.
    #[verifier::type_invariant]
    spec fn valid(self) -> bool {
        self@.well_formed()
    }

    /// Partial binary packet that is being received
    pub fn partial_bin_packet(&self) -> (packet: Option<&Packet>)
        ensures
            match packet {
                Some(packet) => self@.partial_bin_packet == Some(packet@),
                None => self@.partial_bin_packet is None,
            },
            self@.well_formed(),
    {
        proof {
            use_type_invariant(self);
        }
        match &self.partial_bin_packet {
            Some(packet) => Some(packet),
            None => None,
        }
    }
}

/// Utility that applies an incoming binary payload to a partial binary packet
/// waiting to be filled with all the payloads
///
/// Returns true if the packet is complete and should be processed
pub fn apply_payload_on_packet<T>(data: Vec<u8>, socket: &mut SocketData<T>) -> (complete: bool)
    ensures
        final(socket)@ == old(socket)@.with_payload(data@),
        complete == final(socket)@.is_complete(),
{
    proof {
        use_type_invariant(&*socket);
    }
    let mut slot: Option<Packet> = None;
    std::mem::swap(&mut slot, &mut socket.partial_bin_packet);
    match slot {
        Some(packet) => {
            let Packet { inner, ns } = packet;
            match inner {
                PacketData::BinaryEvent(event, binary, ack) => {
                    let mut bin: BinaryPacket = binary;
                    bin.add_payload(data);
                    let complete = bin.is_complete();
                    let inner = PacketData::BinaryEvent(event, bin, ack);
                    socket.partial_bin_packet = Some(Packet { inner, ns });
                    complete
                },
                PacketData::BinaryAck(binary, ack) => {
                    let mut bin: BinaryPacket = binary;
                    bin.add_payload(data);
                    let complete = bin.is_complete();
                    let inner = PacketData::BinaryAck(bin, ack);
                    socket.partial_bin_packet = Some(Packet { inner, ns });
                    complete
                },
                _ => unreached(),
            }
        },
        None => false,
    }
}

/// A connection to ask of a namespace, with what the namespace gets for it.
pub struct ConnectRequest<A: Adapter, C, M> {
    /// The namespace to connect to
    pub ns: Arc<Namespace<A, C>>,
    /// The socket that connects
    pub sid: Sid,
    /// The authentication data of the socket
    pub auth: Option<String>,
    /// The configuration of the client
    pub config: Arc<SocketIoConfig>,
    /// The sender of the message channel, if there is one
    pub sender: Option<M>,
}

impl<A: Adapter, C, M: Clone> ConnectRequest<A, C, M> {
    /// The request connects the socket `sid` to `ns`, with the given data.
    pub open spec fn asks(
        self,
        ns: Arc<Namespace<A, C>>,
        sid: Sid,
        auth: Option<String>,
        config: Arc<SocketIoConfig>,
        sender: Option<M>,
    ) -> bool {
        &&& self.ns == ns
        &&& self.sid == sid
        &&& self.auth == auth
        &&& self.config == config
        &&& match sender {
            Some(shared) => self.sender matches Some(copy) && cloned(shared, copy),
            None => self.sender is None,
        }
    }
}

/// The namespaces `after` a socket asked for the one with the path: those from
/// `before`, and one that relays its connections where there was none.
pub open spec fn made_available<A: Adapter, C>(
    before: Map<Seq<char>, Arc<Namespace<A, C>>>,
    after: Map<Seq<char>, Arc<Namespace<A, C>>>,
    path: Seq<char>,
) -> bool {
    &&& after.contains_key(path)
    &&& if before.contains_key(path) {
        after == before
    } else {
        added(before, after, path, ConnectHandler::Relay)
    }
}

/// A packet that a namespace has to receive.
pub struct Delivery<A: Adapter, C> {
    /// The namespace
    pub ns: Arc<Namespace<A, C>>,
    /// The socket that sent the packet
    pub sid: Sid,
    /// What the packet holds
    pub packet: PacketData,
}

/// The delivery of a packet: to the namespace it is for, and to none if there is
/// no such namespace.
pub open spec fn delivers<A: Adapter, C>(
    delivery: Option<Delivery<A, C>>,
    namespaces: Map<Seq<char>, Arc<Namespace<A, C>>>,
    packet: PacketView,
    sid: Sid,
) -> bool {
    match delivery {
        Some(delivery) => {
            &&& namespaces.contains_key(packet.ns)
            &&& delivery.ns == namespaces[packet.ns]
            &&& delivery.sid == sid
            &&& delivery.packet@ == packet.inner
        },
        None => !namespaces.contains_key(packet.ns),
    }
}

/// What to do for a new transport socket.
pub enum ConnectAction<A: Adapter, C, M> {
    /// Connect it to the default namespace
    Connect(ConnectRequest<A, C, M>),
    /// Close it unless it connects to a namespace within the duration
    SpawnConnectTimeout(Duration),
}

/// What to do for a message of a transport socket.
pub enum MessageAction<A: Adapter, C, M> {
    /// Close the socket
    Close(DisconnectReason),
    /// Connect the socket to a namespace
    Connect(ConnectRequest<A, C, M>),
    /// Hand a packet to a namespace
    Deliver(Delivery<A, C>),
    /// Nothing
    Done,
}

impl<A: Adapter, C> Client<A, C> {
    /// Called when a socket connects to a new namespace
    ///
    /// A namespace that is not there is added, and relays its connections.
    pub fn sock_connect<M: Clone>(
        &mut self,
        auth: Option<String>,
        ns_path: &str,
        sid: Sid,
        cell: &SenderCell<M>,
    ) -> (request: ConnectRequest<A, C, M>)
        ensures
            final(self).config() == old(self).config(),
            made_available(old(self).namespaces(), final(self).namespaces(), ns_path@),
            final(self).namespaces().contains_key(ns_path@),
            request.asks(
                final(self).namespaces()[ns_path@],
                sid,
                auth,
                old(self).config(),
                cell@,
            ),
            request.ns == final(self).namespaces()[ns_path@],
            request.sid == sid,
            request.auth == auth,
            request.config == old(self).config(),
            request.sender is Some <==> cell@ is Some,
    {
        let ns = match self.get_ns(ns_path) {
            Some(ns) => ns,
            None => {
                self.add_ns(Cow::Owned(ns_path.to_owned()), ConnectHandler::Relay);
                match self.get_ns(ns_path) {
                    Some(ns) => ns,
                    None => unreached(),
                }
            },
        };
        let sender = match cell.get() {
            Some(sender) => Some(sender.clone()),
            None => None,
        };
        ConnectRequest { ns, sid, auth, config: self.config.clone(), sender }
    }

    /// Propagate a packet to a its target namespace
    pub fn sock_propagate_packet(&self, packet: Packet, sid: Sid) -> (delivery: Option<
        Delivery<A, C>,
    >)
        ensures
            delivers(delivery, self.namespaces(), packet@, sid),
            delivery is Some <==> self.namespaces().contains_key(packet.ns@),
            delivery matches Some(delivery) ==> {
                &&& delivery.ns == self.namespaces()[packet.ns@]
                &&& delivery.sid == sid
                &&& delivery.packet == packet.inner
            },
    {
        let Packet { inner, ns } = packet;
        let path: String = match ns {
            Cow::Borrowed(name) => name.to_owned(),
            Cow::Owned(name) => name,
        };
        match self.get_ns(path.as_str()) {
            Some(ns) => Some(Delivery { ns, sid, packet: inner }),
            None => None,
        }
    }

    /// A new transport socket: with the older protocol it is connected to the
    /// default namespace, which is added if it is not there; with the newer one it
    /// has to connect in time.
    pub fn on_connect<M: Clone>(
        &mut self,
        protocol: ProtocolVersion,
        sid: Sid,
        cell: &SenderCell<M>,
    ) -> (action: ConnectAction<A, C, M>)
        ensures
            final(self).config() == old(self).config(),
            match protocol {
                ProtocolVersion::V4 => {
                    &&& made_available(old(self).namespaces(), final(self).namespaces(), "/"@)
                    &&& action matches ConnectAction::Connect(request) && {
                        &&& request.asks(
                            final(self).namespaces()["/"@],
                            sid,
                            None,
                            old(self).config(),
                            cell@,
                        )
                        &&& request.ns == final(self).namespaces()["/"@]
                        &&& request.sid == sid
                        &&& request.auth is None
                        &&& request.config == old(self).config()
                    }
                },
                ProtocolVersion::V5 => {
                    &&& final(self).namespaces() == old(self).namespaces()
                    &&& action matches ConnectAction::SpawnConnectTimeout(timeout) && timeout
                        == old(self).config().connect_timeout
                },
            },
    {
        match protocol {
            ProtocolVersion::V4 => ConnectAction::Connect(
                self.sock_connect(None, "/", sid, cell),
            ),
            ProtocolVersion::V5 => ConnectAction::SpawnConnectTimeout(
                self.config.connect_timeout,
            ),
        }
    }

    /// A message of a transport socket, as the packet that it was parsed into.
    ///
    /// A socket whose message cannot be parsed is closed. A connection is asked of
    /// its namespace. A binary packet waits for its payloads, in the place of one
    /// that was waiting before. Any other packet goes to its namespace, if there
    /// is one.
    pub fn on_message<T, M: Clone, E>(
        &mut self,
        packet: Result<Packet, E>,
        sid: Sid,
        data: &mut SocketData<T>,
        cell: &SenderCell<M>,
    ) -> (action: MessageAction<A, C, M>)
        ensures
            final(self).config() == old(self).config(),
            packet is Err ==> {
                &&& action == MessageAction::<A, C, M>::Close(DisconnectReason::PacketParsingError)
                &&& final(self).namespaces() == old(self).namespaces()
                &&& final(data)@ == old(data)@
            },
            packet matches Ok(packet) ==> match packet.inner {
                PacketData::Connect(auth) => {
                    &&& made_available(
                        old(self).namespaces(),
                        final(self).namespaces(),
                        packet.ns@,
                    )
                    &&& action matches MessageAction::Connect(request) && {
                        &&& request.asks(
                            final(self).namespaces()[packet.ns@],
                            sid,
                            auth,
                            old(self).config(),
                            cell@,
                        )
                        &&& request.ns == final(self).namespaces()[packet.ns@]
                        &&& request.sid == sid
                        &&& request.auth == auth
                        &&& request.config == old(self).config()
                    }
                    &&& final(data)@ == old(data)@
                },
                PacketData::BinaryEvent(_, _, _) | PacketData::BinaryAck(_, _) => {
                    &&& action is Done
                    &&& final(self).namespaces() == old(self).namespaces()
                    &&& final(data)@ == old(data)@.with_partial(Some(packet@))
                },
                _ => {
                    &&& delivers(
                        match action {
                            MessageAction::Deliver(delivery) => Some(delivery),
                            _ => None,
                        },
                        old(self).namespaces(),
                        packet@,
                        sid,
                    )
                    &&& action is Deliver || action is Done
                    &&& action is Deliver <==> old(self).namespaces().contains_key(packet.ns@)
                    &&& action matches MessageAction::Deliver(delivery) ==> {
                        &&& delivery.ns == old(self).namespaces()[packet.ns@]
                        &&& delivery.sid == sid
                        &&& delivery.packet == packet.inner
                    }
                    &&& final(self).namespaces() == old(self).namespaces()
                    &&& final(data)@ == old(data)@
                },
            },
            final(data)@.well_formed(),
    {
        proof {
            use_type_invariant(&*data);
        }
        match packet {
            Ok(packet) => {
                let Packet { inner, ns } = packet;
                match inner {
                    PacketData::Connect(auth) => {
                        let path: String = match ns {
                            Cow::Borrowed(name) => name.to_owned(),
                            Cow::Owned(name) => name,
                        };
                        MessageAction::Connect(
                            self.sock_connect(auth, path.as_str(), sid, cell),
                        )
                    },
                    PacketData::BinaryEvent(_, _, _) | PacketData::BinaryAck(_, _) => {
                        data.partial_bin_packet = Some(Packet { inner, ns });
                        MessageAction::Done
                    },
                    _ => match self.sock_propagate_packet(Packet { inner, ns }, sid) {
                        Some(delivery) => MessageAction::Deliver(delivery),
                        None => MessageAction::Done,
                    },
                }
            },
            Err(_) => MessageAction::Close(DisconnectReason::PacketParsingError),
        }
    }

    /// When a binary payload is received from a socket, it is applied to the partial binary packet
    ///
    /// If the packet is complete, it is propagated to the namespace
    pub fn on_binary<T>(&self, payload: Vec<u8>, sid: Sid, data: &mut SocketData<T>) -> (delivery:
        Option<Delivery<A, C>>)
        ensures
            final(data)@ == old(data)@.receive(payload@).0,
            match old(data)@.receive(payload@).1 {
                Some(packet) => delivers(delivery, self.namespaces(), packet, sid),
                None => delivery is None,
            },
            final(data)@.well_formed(),
    {
        let complete = apply_payload_on_packet(payload, data);
        proof {
            use_type_invariant(&*data);
        }
        if complete {
            let mut slot: Option<Packet> = None;
            std::mem::swap(&mut slot, &mut data.partial_bin_packet);
            match slot {
                Some(packet) => self.sock_propagate_packet(packet, sid),
                None => None,
            }
        } else {
            None
        }
    }
}

/// For which reason the socket has to be closed after a namespace took, or did
/// not take, its connection or packet.
pub fn close_reason(outcome: Result<(), NamespaceError>) -> (reason: Option<DisconnectReason>)
    ensures
        reason == (match outcome {
            Ok(()) => None,
            Err(error) => error.fatal,
        }),
{
    match outcome {
        Ok(()) => None,
        Err(error) => error.fatal,
    }
}

/// What to do once a namespace has answered a [`ConnectRequest`].
pub struct ConnectOutcome<T> {
    /// What came of the request
    pub result: Result<(), NamespaceError>,
    /// The channel on which to cancel the connect timeout
    pub cancel_timeout: Option<T>,
}

/// A namespace has answered a [`ConnectRequest`]. If it took the connection, a
/// connect timeout that is running is cancelled.
pub fn sock_connected<T>(result: Result<(), NamespaceError>, data: &mut SocketData<T>) -> (outcome:
    ConnectOutcome<T>)
    ensures
        outcome.result == result,
        match result {
            Ok(()) => {
                &&& outcome.cancel_timeout == old(data)@.connect_recv_tx
                &&& final(data)@ == old(data)@.with_connect_tx(None)
            },
            Err(_) => {
                &&& outcome.cancel_timeout is None
                &&& final(data)@ == old(data)@
            },
        },
        final(data)@.well_formed(),
{
    proof {
        use_type_invariant(&*data);
    }
    let mut cancel_timeout: Option<T> = None;
    if result.is_ok() {
        std::mem::swap(&mut cancel_timeout, &mut data.connect_recv_tx);
    }
    ConnectOutcome { result, cancel_timeout }
}

/// For which reason the socket has to be closed when the wait for it to connect
/// is over: only if the time has elapsed.
pub fn connect_timeout_reason(elapsed: bool) -> (reason: Option<DisconnectReason>)
    ensures
        reason == (if elapsed {
            Some(DisconnectReason::TransportClose)
        } else {
            None
        }),
{
    if elapsed {
        Some(DisconnectReason::TransportClose)
    } else {
        None
    }
}

/// What came of the visit to a namespace that a disconnected socket may be in.
#[derive(Debug, Clone, Copy, PartialEq, Eq, Structural)]
pub enum Visit {
    /// The socket is not there
    Absent,
    /// The socket was there and is closed
    Closed,
    /// The socket was there and could not be closed
    Failed,
}

/// A namespace to visit: if the socket is there, it is to be closed.
pub struct CloseRequest<A: Adapter, C> {
    /// The namespace
    pub ns: Arc<Namespace<A, C>>,
    /// The socket
    pub sid: Sid,
    /// The reason
    pub reason: DisconnectReason,
}

/// The way of a disconnected transport socket through the namespaces.
pub struct Disconnection<A: Adapter, C> {
    namespaces: Vec<Arc<Namespace<A, C>>>,
    visited: usize,
    failed: bool,
    sid: Sid,
    reason: DisconnectReason,
}

/// The model of a [`Disconnection`].
#[verifier::ext_equal]
pub struct DisconnectionView<A: Adapter, C> {
    /// The namespaces that are still to be visited, in this order
    pub todo: Seq<Arc<Namespace<A, C>>>,
    /// The socket
    pub sid: Sid,
    /// The reason
    pub reason: DisconnectReason,
}

impl<A: Adapter, C> View for Disconnection<A, C> {
    type V = DisconnectionView<A, C>;

    closed spec fn view(&self) -> DisconnectionView<A, C> {
        DisconnectionView {
            todo: if self.failed {
                seq![]
            } else {
                self.namespaces@.skip(self.visited as int)
            },
            sid: self.sid,
            reason: self.reason,
        }
    }
}

impl<A: Adapter, C> DisconnectionView<A, C> {
    /// After a visit to the first namespace: the others, or none if the socket
    /// could not be closed there.
    pub open spec fn step(self, visit: Visit) -> DisconnectionView<A, C> {
        DisconnectionView {
            todo: if self.todo.len() == 0 || visit is Failed {
                seq![]
            } else {
                self.todo.drop_first()
            },
            ..self
        }
    }
}

impl<A: Adapter, C> Disconnection<A, C> {
    #[verifier::type_invariant]
    spec fn valid(self) -> bool {
        self.visited <= self.namespaces@.len()
    }

    /// The next namespace to visit.
    pub fn next(&self) -> (request: Option<CloseRequest<A, C>>)
        ensures
            match request {
                Some(request) => {
                    &&& self@.todo.len() > 0
                    &&& request.ns == self@.todo[0]
                    &&& request.sid == self@.sid
                    &&& request.reason == self@.reason
                },
                None => self@.todo.len() == 0,
            },
    {
        proof {
            use_type_invariant(self);
        }
        if !self.failed && self.visited < self.namespaces.len() {
            let ns = self.namespaces[self.visited].clone();
            Some(CloseRequest { ns, sid: self.sid, reason: self.reason })
        } else {
            None
        }
    }

    /// What came of the visit to the next namespace.
    pub fn visited(&mut self, visit: Visit)
        ensures
            final(self)@ == old(self)@.step(visit),
    {
        proof {
            use_type_invariant(&*self);
        }
        match visit {
            Visit::Failed => {
                self.failed = true;
            },
            Visit::Absent | Visit::Closed => {
                if self.visited < self.namespaces.len() {
                    self.visited = self.visited + 1;
                }
            },
        }
        assert(self@ =~= old(self)@.step(visit));
    }
}

impl<A: Adapter, C> Client<A, C> {
    /// Spawn a task that will close the socket if it is not connected to a namespace
    /// after the [`SocketIoConfig::connect_timeout`] duration
    ///
    /// The task waits for that duration, or until it is notified on the channel
    /// of which `tx` is the sending end.
    pub fn spawn_connect_timeout_task<T>(&self, tx: T, data: &mut SocketData<T>) -> (timeout:
        Duration)
        ensures
            timeout == self.config().connect_timeout,
            final(data)@ == old(data)@.with_connect_tx(Some(tx)),
            final(data)@.well_formed(),
    {
        proof {
            use_type_invariant(&*data);
        }
        data.connect_recv_tx = Some(tx);
        self.config.connect_timeout
    }

    /// All namespaces, each of them once.
    fn all_ns(&self) -> (list: Vec<Arc<Namespace<A, C>>>)
        ensures
            distinct_paths(list@),
            by_path(list@) == self.namespaces(),
    {
        proof {
            use_type_invariant(self);
        }
        let mut list: Vec<Arc<Namespace<A, C>>> = Vec::new();
        for i in 0..self.ns.len()
            invariant
                list@ == self.ns@.take(i as int),
        {
            list.push(self.ns[i].clone());
            assert(self.ns@.take(i + 1) =~= self.ns@.take(i as int).push(self.ns@[i as int]));
        }
        assert(self.ns@.take(self.ns@.len() as int) =~= self.ns@);
        list
    }

    /// A transport socket is disconnected: every namespace is to be visited, until
    /// the socket cannot be closed in one of them.
    pub fn on_disconnect(&self, sid: Sid, reason: DisconnectReason) -> (disconnection:
        Disconnection<A, C>)
        ensures
            distinct_paths(disconnection@.todo),
            by_path(disconnection@.todo) == self.namespaces(),
            disconnection@.sid == sid,
            disconnection@.reason == reason,
    {
        let namespaces = self.all_ns();
        let disconnection = Disconnection {
            namespaces,
            visited: 0,
            failed: false,
            sid,
            reason,
        };
        assert(disconnection@.todo =~= namespaces@);
        disconnection
    }

    /// Closes all engine.io connections and all clients
    ///
    /// Returns the namespaces to close, each of them once.
    pub fn close(&self) -> (namespaces: Vec<Arc<Namespace<A, C>>>)
        ensures
            distinct_paths(namespaces@),
            by_path(namespaces@) == self.namespaces(),
    {
        self.all_ns()
    }
}

} // verus!
