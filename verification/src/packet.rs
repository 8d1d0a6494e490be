//! Packets of the socket.io protocol.
use serde_json::Value;
use std::borrow::Cow;
use vstd::prelude::*;

verus! {

/// The data of a binary packet, with the payloads that came for it so far.
#[derive(Debug, PartialEq)]
pub struct BinaryPacket {
    /// The data of the packet
    pub data: Value,
    /// The binary payloads, in the order in which they came
    pub bin: Vec<Vec<u8>>,
    /// How many payloads make the packet complete
    pub payload_count: usize,
}

/// What a packet holds.
#[derive(Debug, PartialEq)]
pub enum PacketData {
    /// Connection to a namespace, with the authentication data
    Connect(Option<String>),
    /// Disconnection from a namespace
    Disconnect,
    /// Event: name, data and ack id
    Event(Cow<'static, str>, Value, Option<i64>),
    /// Acknowledgement: data and ack id
    EventAck(Value, i64),
    /// Refused connection
    ConnectError,
    /// Event with binary payloads: name, data and ack id
    BinaryEvent(Cow<'static, str>, BinaryPacket, Option<i64>),
    /// Acknowledgement with binary payloads: data and ack id
    BinaryAck(BinaryPacket, i64),
}

/// A packet and the path of the namespace it is for.
#[derive(Debug, PartialEq)]
pub struct Packet {
    /// The packet data
    pub inner: PacketData,
    /// The path of the namespace
    pub ns: Cow<'static, str>,
}

/// The model of a [`BinaryPacket`].
#[verifier::ext_equal]
pub struct BinaryView {
    pub data: Value,
    pub bin: Seq<Seq<u8>>,
    pub payload_count: nat,
}

/// The model of a [`PacketData`].
#[verifier::ext_equal]
pub enum PacketDataView {
    Connect(Option<Seq<char>>),
    Disconnect,
    Event(Seq<char>, Value, Option<i64>),
    EventAck(Value, i64),
    ConnectError,
    BinaryEvent(Seq<char>, BinaryView, Option<i64>),
    BinaryAck(BinaryView, i64),
}

/// The model of a [`Packet`].
#[verifier::ext_equal]
pub struct PacketView {
    pub inner: PacketDataView,
    pub ns: Seq<char>,
}

/// The bytes of each payload.
pub open spec fn payload_bytes(bin: Seq<Vec<u8>>) -> Seq<Seq<u8>> {
    bin.map_values(|payload: Vec<u8>| payload@)
}

impl View for BinaryPacket {
    type V = BinaryView;

    open spec fn view(&self) -> BinaryView {
        BinaryView {
            data: self.data,
            bin: payload_bytes(self.bin@),
            payload_count: self.payload_count as nat,
        }
    }
}

impl View for PacketData {
    type V = PacketDataView;

    open spec fn view(&self) -> PacketDataView {
        match self {
            PacketData::Connect(None) => PacketDataView::Connect(None),
            PacketData::Connect(Some(auth)) => PacketDataView::Connect(Some(auth@)),
            PacketData::Disconnect => PacketDataView::Disconnect,
            PacketData::Event(event, data, ack) => PacketDataView::Event(event@, *data, *ack),
            PacketData::EventAck(data, ack) => PacketDataView::EventAck(*data, *ack),
            PacketData::ConnectError => PacketDataView::ConnectError,
            PacketData::BinaryEvent(event, bin, ack) => {
                PacketDataView::BinaryEvent(event@, bin@, *ack)
            },
            PacketData::BinaryAck(bin, ack) => PacketDataView::BinaryAck(bin@, *ack),
        }
    }
}

impl View for Packet {
    type V = PacketView;

    open spec fn view(&self) -> PacketView {
        PacketView { inner: self.inner@, ns: self.ns@ }
    }
}

impl BinaryView {
    /// All payloads are there.
    pub open spec fn is_complete(self) -> bool {
        self.bin.len() == self.payload_count
    }

    /// One more payload, behind those that are there.
    pub open spec fn add_payload(self, payload: Seq<u8>) -> BinaryView {
        BinaryView { bin: self.bin.push(payload), ..self }
    }
}

impl PacketDataView {
    /// The packet waits for binary payloads.
    pub open spec fn is_binary(self) -> bool {
        self is BinaryEvent || self is BinaryAck
    }

    /// The binary part of a binary packet.
    pub open spec fn binary(self) -> BinaryView
        recommends
            self.is_binary(),
    {
        match self {
            PacketDataView::BinaryEvent(_, bin, _) => bin,
            PacketDataView::BinaryAck(bin, _) => bin,
            _ => arbitrary(),
        }
    }

    /// The packet with another binary part.
    pub open spec fn with_binary(self, binary: BinaryView) -> PacketDataView {
        match self {
            PacketDataView::BinaryEvent(event, _, ack) => {
                PacketDataView::BinaryEvent(event, binary, ack)
            },
            PacketDataView::BinaryAck(_, ack) => PacketDataView::BinaryAck(binary, ack),
            other => other,
        }
    }
}

impl PacketView {
    /// The packet with one more payload.
    pub open spec fn add_payload(self, payload: Seq<u8>) -> PacketView {
        PacketView {
            inner: self.inner.with_binary(self.inner.binary().add_payload(payload)),
            ns: self.ns,
        }
    }
}

impl BinaryPacket {
    /// Adds a payload behind those that are there.
    pub fn add_payload(&mut self, payload: Vec<u8>)
        ensures
            final(self)@ == old(self)@.add_payload(payload@),
            final(self).data == old(self).data,
            final(self).bin@ == old(self).bin@.push(payload),
            final(self).payload_count == old(self).payload_count,
    {
        self.bin.push(payload);
        assert(payload_bytes(self.bin@) =~= payload_bytes(old(self).bin@).push(payload@));
    }

    /// Whether all payloads are there.
    pub fn is_complete(&self) -> (complete: bool)
        ensures
            complete == self@.is_complete(),
            complete == (self.bin@.len() == self.payload_count),
    {
        self.bin.len() == self.payload_count
    }
}

impl Packet {
    /// An event without binary payloads, for which no acknowledgement is asked.
    pub fn event(ns: Cow<'static, str>, event: Cow<'static, str>, data: Value) -> (packet: Packet)
        ensures
            packet == (Packet { inner: PacketData::Event(event, data, None), ns }),
    {
        Packet { inner: PacketData::Event(event, data, None), ns }
    }

    /// An event with the given binary payloads, for which no acknowledgement is
    /// asked. It is complete.
    pub fn bin_event(
        ns: Cow<'static, str>,
        event: Cow<'static, str>,
        data: Value,
        bin: Vec<Vec<u8>>,
    ) -> (packet: Packet)
        ensures
            packet.ns == ns,
            packet.inner matches PacketData::BinaryEvent(name, binary, ack) && {
                &&& name == event
                &&& ack is None
                &&& binary.data == data
                &&& binary.bin == bin
                &&& binary.payload_count == bin@.len()
                &&& binary@.is_complete()
            },
    {
        let payload_count: usize = bin.len();
        let binary = BinaryPacket { data, bin, payload_count };
        Packet { inner: PacketData::BinaryEvent(event, binary, None), ns }
    }
}

} // verus!
