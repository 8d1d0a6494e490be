//! Namespaces.
use crate::adapter::Adapter;
use crate::handler::ConnectHandler;
use std::borrow::Cow;
use std::sync::Arc;
use vstd::prelude::*;

verus! {

/// A namespace: its path, its adapter, and what is called when a socket connects
/// to it.
#[derive(Debug)]
pub struct Namespace<A: Adapter, C> {
    /// The path of the namespace
    pub path: Cow<'static, str>,
    /// Where the sockets and rooms of the namespace are kept
    pub adapter: A,
    /// The handler of new connections
    pub handler: ConnectHandler<C>,
}

impl<A: Adapter, C> Namespace<A, C> {
    /// The namespace is as [`Namespace::new`] makes it: it has this path, this
    /// handler, and an adapter of its own.
    pub open spec fn is_new(self, path: Seq<char>, handler: ConnectHandler<C>) -> bool {
        &&& self.path@ == path
        &&& self.handler == handler
        &&& call_ensures(A::new, (), self.adapter)
    }

    /// A namespace without sockets.
    pub fn new(path: Cow<'static, str>, handler: ConnectHandler<C>) -> (ns: Arc<Namespace<A, C>>)
        ensures
            ns.is_new(path@, handler),
            ns.path == path,
            ns.handler == handler,
            call_ensures(A::new, (), ns.adapter),
    {
        Arc::new(Namespace { path, adapter: A::new(), handler })
    }
}

} // verus!
