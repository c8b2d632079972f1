//! The namespaces of the client.

pub mod accounts;
pub mod eth;

use vstd::prelude::*;
use crate::api::eth::Eth;
use crate::transports::Transport;

verus! {

/// What every namespace offers.
pub trait Namespace<T>: Clone {
    /// The transport that the namespace is over.
    spec fn over(&self) -> T;

    /// Creates new API namespace.
    fn new(transport: T) -> (out: Self)
        ensures
            out.over() == transport,
    ;

    /// Borrows a transport.
    fn transport(&self) -> (out: &T)
        ensures
            *out == self.over(),
    ;
}

/// The client: every namespace over one transport.
#[derive(Debug, Clone)]
pub struct Web3<T> {
    transport: T,
}

impl<T: Transport> Web3<T> {
    /// The transport that the namespaces share.
    pub closed spec fn transport_of(&self) -> T {
        self.transport
    }

    /// Create new `Web3` with given transport.
    pub fn new(transport: T) -> (out: Self)
        ensures
            out.transport_of() == transport,
    {
        Web3 { transport }
    }

    /// Borrows a transport.
    pub fn transport(&self) -> (out: &T)
        ensures
            *out == self.transport_of(),
    {
        &self.transport
    }

    /// Set the max response bytes: the transport is what its own setting of
    /// the limit makes of it.
    pub fn set_max_response_bytes(&mut self, bytes: u64)
        ensures
            T::limited(old(self).transport_of(), bytes, final(self).transport_of()),
    {
        self.transport.set_max_response_bytes(bytes)
    }

    /// Access methods from custom namespace: the namespace over a clone of
    /// the transport.
    pub fn api<A: Namespace<T>>(&self) -> (out: A)
        ensures
            cloned(self.transport_of(), out.over()),
    {
        A::new(self.transport.clone())
    }

    /// Access methods from `eth` namespace.
    pub fn eth(&self) -> (out: Eth<T>)
        ensures
            cloned(self.transport_of(), out.over()),
    {
        self.api()
    }
}

} // verus!
