//! The message channel on which connections and disconnections are announced.
use crate::handler::message::GeneralMessage;
use crate::handler::ConnectHandler;
use crate::json::{default_value, json_is_null};
use serde_json::Value;
use vstd::prelude::*;

verus! {

/// The key of the message that announces a connection
pub const CONNECT_KEY: &'static str = "connect";

/// The key of the message that announces a disconnection
pub const DISCONNECT_KEY: &'static str = "disconnect";

/// What is set after `value` was to be set: the first value stays.
pub open spec fn set_once<M>(current: Option<M>, value: M) -> Option<M> {
    match current {
        Some(first) => Some(first),
        None => Some(value),
    }
}

/// The sending end of the message channel, which is set once.
#[derive(Debug)]
pub struct SenderCell<M> {
    sender: Option<M>,
}

impl<M> View for SenderCell<M> {
    type V = Option<M>;

    closed spec fn view(&self) -> Option<M> {
        self.sender
    }
}

impl<M> SenderCell<M> {
    /// A cell that is not set yet.
    pub fn new() -> (cell: SenderCell<M>)
        ensures
            cell@ is None,
    {
        SenderCell { sender: None }
    }

    /// The sender, if it is set.
    pub fn get(&self) -> (sender: Option<&M>)
        ensures
            match sender {
                Some(sender) => self@ == Some(*sender),
                None => self@ is None,
            },
    {
        match &self.sender {
            Some(sender) => Some(sender),
            None => None,
        }
    }

    /// Sets the sender, unless there is one: the first sender stays.
    pub fn get_or_init(&mut self, sender: M)
        ensures
            final(self)@ == set_once(old(self)@, sender),
    {
        if self.sender.is_none() {
            self.sender = Some(sender);
        }
    }
}

/// A message and the sender to try to send it on. It is lost if the channel does
/// not take it.
pub struct Relayed<'a, S, M> {
    /// The message
    pub message: GeneralMessage<S>,
    /// The sender
    pub sender: &'a M,
}

impl<S> GeneralMessage<S> {
    /// Nothing but the key, the value and the socket is set.
    pub open spec fn is_bare(self) -> bool {
        self.params@.len() == 0 && self.ack_id is None
    }

    /// The message announces that `socket` has connected with `data`.
    pub open spec fn announces_connect(self, socket: S, data: Value) -> bool where S: Clone {
        &&& self.key@ == CONNECT_KEY@
        &&& self.value == data
        &&& cloned(socket, self.socket)
        &&& self.is_bare()
    }

    /// The message announces that `socket` has disconnected.
    pub open spec fn announces_disconnect(self, socket: S) -> bool where S: Clone {
        &&& self.key@ == DISCONNECT_KEY@
        &&& json_is_null(self.value)
        &&& cloned(socket, self.socket)
        &&& self.is_bare()
    }
}

/// The data with which a connection is announced: that of the socket, if the
/// namespace relays its connections and the data could be extracted. Otherwise
/// the connection is not announced.
pub fn relayed_data<C>(handler: &ConnectHandler<C>, data: Option<Value>) -> (relayed: Option<Value>)
    ensures
        relayed == (if handler is Relay {
            data
        } else {
            None
        }),
{
    match handler {
        ConnectHandler::Relay => data,
        ConnectHandler::Custom(_) => None,
    }
}

/// What is to be called when the socket disconnects.
#[derive(Debug)]
pub struct DisconnectHandler;

/// What to do when a socket has connected to a namespace that relays its
/// connections.
pub struct Connected<'a, S, M> {
    /// The announcement to send, if there is a channel
    pub announcement: Option<Relayed<'a, S, M>>,
    /// The disconnect handler to give to the socket
    pub on_disconnect: DisconnectHandler,
}

/// Announces a connection, if there is a channel. In any case the socket gets a
/// handler that announces its disconnection.
pub fn on_connect<'a, S: Clone, M>(
    socket: &S,
    data: Value,
    cell: &'a SenderCell<M>,
) -> (connected: Connected<'a, S, M>)
    ensures
        match connected.announcement {
            Some(relayed) => {
                &&& cell@ == Some(*relayed.sender)
                &&& relayed.message.announces_connect(*socket, data)
            },
            None => cell@ is None,
        },
{
    let announcement = match cell.get() {
        Some(sender) => {
            let message = GeneralMessage {
                key: CONNECT_KEY.to_owned(),
                value: data,
                socket: socket.clone(),
                params: Vec::new(),
                ack_id: None,
            };
            Some(Relayed { message, sender })
        },
        None => None,
    };
    Connected { announcement, on_disconnect: DisconnectHandler }
}

impl DisconnectHandler {
    /// Announces that the socket has disconnected, if there is a channel.
    pub fn call<'a, S: Clone, M>(&self, socket: &S, cell: &'a SenderCell<M>) -> (announcement:
        Option<Relayed<'a, S, M>>)
        ensures
            match announcement {
                Some(relayed) => {
                    &&& cell@ == Some(*relayed.sender)
                    &&& relayed.message.announces_disconnect(*socket)
                },
                None => cell@ is None,
            },
    {
        match cell.get() {
            Some(sender) => {
                let message = GeneralMessage {
                    key: DISCONNECT_KEY.to_owned(),
                    value: default_value(),
                    socket: socket.clone(),
                    params: Vec::new(),
                    ack_id: None,
                };
                Some(Relayed { message, sender })
            },
            None => None,
        }
    }
}

} // verus!
