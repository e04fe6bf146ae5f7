//! The TCP listener configuration, the bound acceptor, and the record of one
//! accepted connection.
use vstd::prelude::*;

use tokio::net::TcpListener as TokioListener;

use crate::addr::{from_ip, AppProto, IpSocketAddr, LocalAddr, SocketAddr, TransProto};

verus! {

/// Declares tokio's `tokio::net::TcpListener` so that an acceptor can hold
/// one; nothing is assumed of it but that it exists.
#[verifier::external_type_specification]
#[verifier::external_body]
pub struct ExTokioTcpListener(TokioListener);

/// Where a TCP listener is to be bound; nothing is bound until it is turned
/// into a [`TcpAcceptor`].
pub struct TcpListener<T> {
    addr: T,
}

impl<T> TcpListener<T> {
    /// The address specification this listener will bind to.
    pub closed spec fn spec_addr(&self) -> T {
        self.addr
    }

    /// A listener for the given address specification.
    pub fn bind(addr: T) -> (r: Self)
        ensures
            r.spec_addr() == addr,
    {
        TcpListener { addr }
    }

    /// Gives back the address specification, for the bind step.
    pub fn into_addr(self) -> (r: T)
        ensures
            r == self.spec_addr(),
    {
        self.addr
    }
}

/// The tagged local address of a TCP listener bound at `bound`.
pub open spec fn tcp_local_addr(bound: IpSocketAddr) -> LocalAddr {
    LocalAddr { addr: from_ip(bound), trans_proto: TransProto::Tcp, app_proto: AppProto::Http }
}

/// One accepted connection with the listener's address and the peer's.
pub struct Accepted<C> {
    pub conn: C,
    pub local_addr: LocalAddr,
    pub remote_addr: SocketAddr,
}

/// A bound TCP listening socket and the address it is bound to.
pub struct TcpAcceptor {
    inner: TokioListener,
    local_addr: LocalAddr,
}

impl TcpAcceptor {
    pub closed spec fn spec_inner(&self) -> TokioListener {
        self.inner
    }

    /// The tagged address this acceptor is bound to.
    pub closed spec fn local(&self) -> LocalAddr {
        self.local_addr
    }

    /// An acceptor over a listening socket that the system reports bound
    /// at `bound`, tagged as TCP carrying HTTP.
    pub fn new(inner: TokioListener, bound: IpSocketAddr) -> (r: TcpAcceptor)
        ensures
            r.spec_inner() == inner,
            r.local() == tcp_local_addr(bound),
    {
        let local_addr = LocalAddr::new(SocketAddr::from(bound), TransProto::Tcp, AppProto::Http);
        TcpAcceptor { inner, local_addr }
    }

    /// The listening socket, to accept connections on.
    pub fn inner(&self) -> (r: &TokioListener)
        ensures
            *r == self.spec_inner(),
    {
        &self.inner
    }

    /// The addresses this acceptor is bound to: exactly one.
    pub fn local_addrs(&self) -> (r: Vec<LocalAddr>)
        ensures
            r@ == seq![self.local()],
    {
        let mut v: Vec<LocalAddr> = Vec::new();
        v.push(self.local_addr.clone());
        v
    }

    /// The record of a connection accepted from the peer at `remote`.
    pub fn accepted<C>(&self, conn: C, remote: IpSocketAddr) -> (r: Accepted<C>)
        ensures
            r.conn == conn,
            r.local_addr == self.local(),
            r.remote_addr == from_ip(remote),
    {
        Accepted { conn, local_addr: self.local_addr.clone(), remote_addr: SocketAddr::from(remote) }
    }
}

/// An acceptor made for a socket bound at `bound` reports one address
/// (see `local_addrs`), tagged TCP and HTTP, whose standard form is `bound`.
pub proof fn lemma_reported_addr_is_bound(acceptor: TcpAcceptor, bound: IpSocketAddr)
    requires
        acceptor.local() == tcp_local_addr(bound),
    ensures
        acceptor.local().addr.std_form() == Some(bound),
        acceptor.local().trans_proto == TransProto::Tcp,
        acceptor.local().app_proto == AppProto::Http,
{
}

} // verus!
