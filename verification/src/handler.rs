//! Handlers of the events of a socket.
use std::marker::PhantomData;
use vstd::prelude::*;

pub mod laws;
pub mod message;
pub mod private;

verus! {

/// What is called when a socket has connected to a namespace.
#[derive(Debug)]
pub enum ConnectHandler<C> {
    /// The connection is announced on the message channel
    Relay,
    /// The handler that the namespace was registered with
    Custom(C),
}

/// A handler on its way to lose the types of its arguments.
pub struct MakeErasedHandler<H, S, T> {
    handler: H,
    marker: PhantomData<(S, T)>,
}

impl<H, S, T> MakeErasedHandler<H, S, T> {
    /// The handler inside.
    pub closed spec fn handler(self) -> H {
        self.handler
    }

    /// Takes the handler in.
    pub fn new(handler: H) -> (made: MakeErasedHandler<H, S, T>)
        ensures
            made.handler() == handler,
    {
        MakeErasedHandler { handler, marker: PhantomData }
    }
}

} // verus!
