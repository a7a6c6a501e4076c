//! Per-request ambient state.
//!
//! The pipeline threads one owned [`Context`] through its stages. The
//! surrounding framework keys entries by type, with at most one value
//! per type; the verified core only ever reads and writes a fixed set
//! of entry types, so the bag is modelled as one optional slot per
//! such type. An insert overwrites the slot; a read borrows it.

use vstd::prelude::*;
use crate::address::{Authority, AuthorityRepr};
use crate::proxy::{HttpProxyInfo, HttpProxyInfoRepr, ProxySocketAddr};
use crate::tls::{NegotiatedTlsParameters, NegotiatedRepr, Protocol, TlsConnectorData,
    TlsConnectorDataRepr, TlsError, TlsTunnel};

verus! {

/// The view of an `Option` whose payload has a view of its own.
pub open spec fn opt_repr<T: View>(o: Option<T>) -> Option<T::V> {
    match o {
        Some(x) => Some(x@),
        None => None,
    }
}

/// The resolved destination of a request: its authority, and the
/// application protocol when one was determined.
#[derive(Debug, Clone)]
pub struct TransportContext {
    pub authority: Authority,
    pub app_protocol: Option<Protocol>,
}

/// The mathematical value of a [`TransportContext`].
pub struct TransportContextRepr {
    pub authority: AuthorityRepr,
    pub app_protocol: Option<Protocol>,
}

impl View for TransportContext {
    type V = TransportContextRepr;

    open spec fn view(&self) -> TransportContextRepr {
        TransportContextRepr { authority: self.authority@, app_protocol: self.app_protocol }
    }
}

impl TransportContext {
    /// An exact copy; spelt out so that its value is pinned down.
    pub fn dup(&self) -> (r: Self)
        ensures
            r@ == self@,
    {
        TransportContext { authority: self.authority.dup(), app_protocol: self.app_protocol }
    }
}

/// What a request alone reveals about its destination: an authority
/// when one could be read off the request.
#[derive(Debug, Clone)]
pub struct RequestContext {
    pub authority: Option<Authority>,
}

/// The mathematical value of a [`RequestContext`].
pub struct RequestContextRepr {
    pub authority: Option<AuthorityRepr>,
}

impl View for RequestContext {
    type V = RequestContextRepr;

    open spec fn view(&self) -> RequestContextRepr {
        RequestContextRepr { authority: opt_repr(self.authority) }
    }
}

/// Per-request, type-keyed ambient state: one slot for each entry type
/// the connection pipeline reads or writes.
#[derive(Debug)]
pub struct Context {
    pub proxy_socket_addr: Option<ProxySocketAddr>,
    pub proxy_info: Option<HttpProxyInfo>,
    pub request: Option<RequestContext>,
    pub transport: Option<TransportContext>,
    pub tls_tunnel: Option<TlsTunnel>,
    pub connector_data: Option<TlsConnectorData>,
    pub negotiated: Option<NegotiatedTlsParameters>,
}

/// The mathematical value of a [`Context`].
pub struct ContextRepr {
    pub proxy_socket_addr: Option<ProxySocketAddr>,
    pub proxy_info: Option<HttpProxyInfoRepr>,
    pub request: Option<RequestContextRepr>,
    pub transport: Option<TransportContextRepr>,
    pub tls_tunnel: Option<crate::address::HostRepr>,
    pub connector_data: Option<TlsConnectorDataRepr>,
    pub negotiated: Option<NegotiatedRepr>,
}

impl View for Context {
    type V = ContextRepr;

    open spec fn view(&self) -> ContextRepr {
        ContextRepr {
            proxy_socket_addr: self.proxy_socket_addr,
            proxy_info: opt_repr(self.proxy_info),
            request: opt_repr(self.request),
            transport: opt_repr(self.transport),
            tls_tunnel: match self.tls_tunnel {
                Some(t) => Some(t.server_host@),
                None => None,
            },
            connector_data: opt_repr(self.connector_data),
            negotiated: opt_repr(self.negotiated),
        }
    }
}

/// `c` with its proxy-address slot overwritten.
pub open spec fn with_proxy_socket_addr(c: ContextRepr, a: ProxySocketAddr) -> ContextRepr {
    ContextRepr { proxy_socket_addr: Some(a), ..c }
}

/// `c` with its proxy-info slot overwritten.
pub open spec fn with_proxy_info(c: ContextRepr, i: HttpProxyInfoRepr) -> ContextRepr {
    ContextRepr { proxy_info: Some(i), ..c }
}

/// `c` with its request slot overwritten.
pub open spec fn with_request(c: ContextRepr, r: RequestContextRepr) -> ContextRepr {
    ContextRepr { request: Some(r), ..c }
}

/// `c` with its transport slot overwritten.
pub open spec fn with_transport(c: ContextRepr, t: TransportContextRepr) -> ContextRepr {
    ContextRepr { transport: Some(t), ..c }
}

/// `c` with its tunnel-marker slot overwritten.
pub open spec fn with_tls_tunnel(c: ContextRepr, h: crate::address::HostRepr) -> ContextRepr {
    ContextRepr { tls_tunnel: Some(h), ..c }
}

/// `c` with its connector-data slot overwritten.
pub open spec fn with_connector_data(c: ContextRepr, d: TlsConnectorDataRepr) -> ContextRepr {
    ContextRepr { connector_data: Some(d), ..c }
}

/// `c` with its negotiated-parameters slot overwritten.
pub open spec fn with_negotiated(c: ContextRepr, n: NegotiatedRepr) -> ContextRepr {
    ContextRepr { negotiated: Some(n), ..c }
}

impl Context {
    /// A context with every slot empty, as a request starts out.
    pub fn new() -> (r: Self)
        ensures
            r@.proxy_socket_addr is None,
            r@.proxy_info is None,
            r@.request is None,
            r@.transport is None,
            r@.tls_tunnel is None,
            r@.connector_data is None,
            r@.negotiated is None,
    {
        Context {
            proxy_socket_addr: None,
            proxy_info: None,
            request: None,
            transport: None,
            tls_tunnel: None,
            connector_data: None,
            negotiated: None,
        }
    }

    /// Insert the proxy address, overwriting any earlier value.
    pub fn insert_proxy_socket_addr(&mut self, a: ProxySocketAddr)
        ensures
            final(self)@ == with_proxy_socket_addr(old(self)@, a),
    {
        self.proxy_socket_addr = Some(a);
    }

    /// Insert proxy info, overwriting any earlier value.
    pub fn insert_proxy_info(&mut self, i: HttpProxyInfo)
        ensures
            final(self)@ == with_proxy_info(old(self)@, i@),
    {
        self.proxy_info = Some(i);
    }

    /// Insert a tunnel marker, overwriting any earlier value.
    pub fn insert_tls_tunnel(&mut self, t: TlsTunnel)
        ensures
            final(self)@ == with_tls_tunnel(old(self)@, t.server_host@),
    {
        self.tls_tunnel = Some(t);
    }

    /// Insert connector data, overwriting any earlier value.
    pub fn insert_connector_data(&mut self, d: TlsConnectorData)
        ensures
            final(self)@ == with_connector_data(old(self)@, d@),
    {
        self.connector_data = Some(d);
    }

    /// Insert negotiated TLS parameters, overwriting any earlier value.
    pub fn insert_negotiated(&mut self, n: NegotiatedTlsParameters)
        ensures
            final(self)@ == with_negotiated(old(self)@, n@),
    {
        self.negotiated = Some(n);
    }

    /// Keep the request slot if it is filled; fill it with `computed`
    /// otherwise. Models the lazy, infallible entry computation.
    pub fn get_or_insert_request(&mut self, computed: RequestContext)
        ensures
            old(self)@.request is Some ==> *final(self) == *old(self),
            old(self)@.request is None ==> final(self)@ == with_request(old(self)@, computed@),
            final(self)@.request is Some,
    {
        if self.request.is_none() {
            self.request = Some(computed);
        }
    }

    /// Keep the transport slot if it is filled; fill it with `computed`
    /// otherwise, reporting a computation failure when there is nothing
    /// to fill it with. Models the lazy, fallible entry computation.
    pub fn get_or_try_insert_transport(&mut self, computed: Option<TransportContext>) -> (r: Result<
        (),
        TlsError,
    >)
        ensures
            old(self)@.transport is Some ==> *final(self) == *old(self) && r is Ok,
            old(self)@.transport is None && computed is Some ==> final(self)@ == with_transport(
                old(self)@,
                computed->0@,
            ) && r is Ok,
            old(self)@.transport is None && computed is None ==> *final(self) == *old(self) && r
                == Err::<(), TlsError>(TlsError::ComputeTransportContext),
            r is Ok <==> (old(self)@.transport is Some || computed is Some),
            r is Ok ==> final(self)@.transport is Some,
    {
        if self.transport.is_some() {
            Ok(())
        } else {
            match computed {
                Some(t) => {
                    self.transport = Some(t);
                    Ok(())
                },
                None => Err(TlsError::ComputeTransportContext),
            }
        }
    }
}

} // verus!
