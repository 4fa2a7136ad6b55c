//! What a relay is told about one endpoint, and the handles that its detached
//! tasks keep.

use vstd::prelude::*;

use std::sync::Arc;

verus! {

/// One relay: where it listens, where it connects to, and how.
#[derive(Clone, Debug, PartialEq, Eq)]
pub struct Endpoint<A, R, B, C> {
    pub laddr: A,
    pub raddr: R,
    pub bind_opts: B,
    pub conn_opts: C,
    pub extra_raddrs: Vec<R>,
}

/// Another handle on the same value.
///
/// Calls the `clone` of `std::sync::Arc`, which makes a second pointer to the
/// same allocation: the new handle stands for the very value that the old one
/// stands for. The value is dropped with its last handle.
#[verifier::external_body]
pub(crate) fn share<T>(handle: &Arc<T>) -> (copy: Arc<T>)
    ensures
        copy == *handle,
{
    Arc::clone(handle)
}

/// What every relayed TCP connection keeps of its endpoint. A connection's task
/// outlives the accept loop that started it, so it holds handles of its own.
#[derive(Debug, PartialEq, Eq)]
pub struct TcpHandles<R, C> {
    pub raddr: Arc<R>,
    pub conn_opts: Arc<C>,
    pub extra_raddrs: Arc<Vec<R>>,
}

impl<R, C> TcpHandles<R, C> {
    /// A second set of handles on the same values.
    pub fn share(&self) -> (copy: TcpHandles<R, C>)
        ensures
            copy == *self,
    {
        TcpHandles {
            raddr: share(&self.raddr),
            conn_opts: share(&self.conn_opts),
            extra_raddrs: share(&self.extra_raddrs),
        }
    }
}

/// What every UDP association keeps of its relay. The task that sends replies
/// back outlives the receive loop, so the listener and the table of
/// associations are kept by handles too.
#[derive(Debug, PartialEq, Eq)]
pub struct UdpHandles<S, R, C, M> {
    pub lis: Arc<S>,
    pub raddr: Arc<R>,
    pub conn_opts: Arc<C>,
    pub sockmap: Arc<M>,
}

impl<S, R, C, M> UdpHandles<S, R, C, M> {
    /// A second set of handles on the same values.
    pub fn share(&self) -> (copy: UdpHandles<S, R, C, M>)
        ensures
            copy == *self,
    {
        UdpHandles {
            lis: share(&self.lis),
            raddr: share(&self.raddr),
            conn_opts: share(&self.conn_opts),
            sockmap: share(&self.sockmap),
        }
    }
}

} // verus!
