//! ## A tower layer for socket.io so it can be used as a middleware with frameworks supporting layers.
use crate::adapter::Adapter;
use crate::client::Client;
use crate::config::SocketIoConfig;
use crate::relay::{set_once, SenderCell};
use std::sync::Arc;
use vstd::prelude::*;

verus! {

/// A layer for the socket.io service, acting as a middleware. All its copies, and
/// all services that it makes, share one client.
pub struct SocketIoLayer<K> {
    client: Arc<K>,
}

impl<K> Clone for SocketIoLayer<K> {
    fn clone(&self) -> (copy: SocketIoLayer<K>)
        ensures
            copy.client() == self.client(),
    {
        SocketIoLayer { client: self.client.clone() }
    }
}

impl<K> SocketIoLayer<K> {
    /// The client that is shared.
    pub closed spec fn client(self) -> Arc<K> {
        self.client
    }

    /// A layer around the client, and the client itself.
    pub fn from_client(client: K) -> (made: (SocketIoLayer<K>, Arc<K>))
        ensures
            *made.1 == client,
            made.0.client() == made.1,
    {
        let client = Arc::new(client);
        let layer = SocketIoLayer { client: client.clone() };
        (layer, client)
    }

    /// The client for a service that the layer makes.
    pub fn service_client(&self) -> (client: Arc<K>)
        ensures
            client == self.client(),
    {
        self.client.clone()
    }
}

impl<A: Adapter, C> SocketIoLayer<Client<A, C>> {
    /// A layer around a new client, and the client itself.
    ///
    /// The client is shared as it is, and what is shared cannot be changed: it stays
    /// without namespaces. A client that is to get namespaces goes into a lock, and
    /// the layer around it comes from [`SocketIoLayer::from_client`].
    pub fn from_config<M>(
        config: Arc<SocketIoConfig>,
        message_sender: M,
        cell: &mut SenderCell<M>,
    ) -> (made: (SocketIoLayer<Client<A, C>>, Arc<Client<A, C>>))
        ensures
            made.0.client() == made.1,
            made.1.config() == config,
            made.1.namespaces().is_empty(),
            final(cell)@ == set_once(old(cell)@, message_sender),
    {
        SocketIoLayer::from_client(Client::new(config, message_sender, cell))
    }
}

} // verus!
