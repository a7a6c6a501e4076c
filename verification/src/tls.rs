//! The TLS side of connection establishment: deciding whether a
//! stream is upgraded, which server name the handshake presents, and
//! what a finished handshake means — without implementing the TLS
//! protocol itself, which an outside engine drives.

use vstd::prelude::*;
use crate::address::{Host, HostRepr};
use crate::context::{opt_repr, Context, ContextRepr, TransportContext, TransportContextRepr,
    with_negotiated, with_transport};

verus! {

/// An application protocol a destination may be resolved to.
#[derive(Debug, Clone, Copy, PartialEq, Eq, Structural)]
pub enum Protocol {
    Http,
    Https,
    Ws,
    Wss,
}

/// Whether a protocol calls for a secured transport.
pub open spec fn protocol_is_secure(p: Protocol) -> bool {
    match p {
        Protocol::Https => true,
        Protocol::Wss => true,
        Protocol::Http => false,
        Protocol::Ws => false,
    }
}

impl Protocol {
    /// Whether this protocol calls for a secured transport.
    pub fn is_secure(&self) -> (r: bool)
        ensures
            r == protocol_is_secure(*self),
    {
        match self {
            Protocol::Https => true,
            Protocol::Wss => true,
            Protocol::Http => false,
            Protocol::Ws => false,
        }
    }
}

/// A TLS protocol version the engine may negotiate.
#[derive(Debug, Clone, Copy, PartialEq, Eq, Structural)]
pub enum ProtocolVersion {
    Ssl3,
    Tls1_0,
    Tls1_1,
    Tls1_2,
    Tls1_3,
}

/// The version a wire code stands for, when it is one this library
/// knows how to report.
pub open spec fn version_of_wire(w: u16) -> Option<ProtocolVersion> {
    if w == 0x0300 {
        Some(ProtocolVersion::Ssl3)
    } else if w == 0x0301 {
        Some(ProtocolVersion::Tls1_0)
    } else if w == 0x0302 {
        Some(ProtocolVersion::Tls1_1)
    } else if w == 0x0303 {
        Some(ProtocolVersion::Tls1_2)
    } else if w == 0x0304 {
        Some(ProtocolVersion::Tls1_3)
    } else {
        None
    }
}

/// The errors the TLS side can report. An unmapped protocol version is
/// its own kind: configuration trouble, never silently ignored.
#[derive(Debug, Clone, Copy, PartialEq, Eq, Structural)]
pub enum TlsError {
    ComputeTransportContext,
    ConfigBuild,
    Handshake,
    SessionMissing,
    UnsupportedProtocolVersion(u16),
}

impl TlsError {
    /// A human-readable account of the error, the short context note
    /// each stage contributes to the causal chain.
    pub fn message(&self) -> (r: &'static str) {
        match self {
            TlsError::ComputeTransportContext => "tls connector: compute transport context",
            TlsError::ConfigBuild => "tls connector: build client config",
            TlsError::Handshake => "tls connector: connect",
            TlsError::SessionMissing => "tls connector: failed to establish session",
            TlsError::UnsupportedProtocolVersion(_) => "tls connector: unmapped protocol version",
        }
    }
}

/// Map a wire version code to the reported version, or the
/// configuration error naming the unmapped code.
pub fn version_from_wire(w: u16) -> (r: Result<ProtocolVersion, TlsError>)
    ensures
        version_of_wire(w) is Some ==> r == Ok::<ProtocolVersion, TlsError>(version_of_wire(w)->0),
        version_of_wire(w) is None ==> r == Err::<ProtocolVersion, TlsError>(
            TlsError::UnsupportedProtocolVersion(w),
        ),
{
    if w == 0x0300 {
        Ok(ProtocolVersion::Ssl3)
    } else if w == 0x0301 {
        Ok(ProtocolVersion::Tls1_0)
    } else if w == 0x0302 {
        Ok(ProtocolVersion::Tls1_1)
    } else if w == 0x0303 {
        Ok(ProtocolVersion::Tls1_2)
    } else if w == 0x0304 {
        Ok(ProtocolVersion::Tls1_3)
    } else {
        Err(TlsError::UnsupportedProtocolVersion(w))
    }
}

/// What a completed handshake agreed on: the protocol version, and the
/// application protocol when one was selected.
#[derive(Debug, Clone)]
pub struct NegotiatedTlsParameters {
    pub protocol_version: ProtocolVersion,
    pub application_layer_protocol: Option<Vec<u8>>,
}

/// The mathematical value of [`NegotiatedTlsParameters`].
pub struct NegotiatedRepr {
    pub protocol_version: ProtocolVersion,
    pub application_layer_protocol: Option<Seq<u8>>,
}

impl View for NegotiatedTlsParameters {
    type V = NegotiatedRepr;

    open spec fn view(&self) -> NegotiatedRepr {
        NegotiatedRepr {
            protocol_version: self.protocol_version,
            application_layer_protocol: match self.application_layer_protocol {
                Some(ref p) => Some(p@),
                None => None,
            },
        }
    }
}

/// A context marker asking for a TLS tunnel to the named server.
#[derive(Debug, Clone)]
pub struct TlsTunnel {
    pub server_host: Host,
}

/// Client configuration data handed to the engine. The verified core
/// reads one thing off it: the server name it pins, which overrides
/// the host resolved from the request.
#[derive(Debug, Clone)]
pub struct TlsConnectorData {
    pub server_name: Option<Host>,
}

/// The mathematical value of [`TlsConnectorData`].
pub struct TlsConnectorDataRepr {
    pub server_name: Option<HostRepr>,
}

impl View for TlsConnectorData {
    type V = TlsConnectorDataRepr;

    open spec fn view(&self) -> TlsConnectorDataRepr {
        TlsConnectorDataRepr {
            server_name: match self.server_name {
                Some(ref h) => Some(h@),
                None => None,
            },
        }
    }
}

impl TlsConnectorData {
    /// An exact copy; spelt out so that its value is pinned down.
    pub fn dup(&self) -> (r: Self)
        ensures
            r@ == self@,
    {
        TlsConnectorData {
            server_name: match &self.server_name {
                Some(h) => Some(h.dup()),
                None => None,
            },
        }
    }
}

/// What the engine reports of an established session: the negotiated
/// version's wire code, and the selected application protocol if any.
#[derive(Debug, Clone)]
pub struct SessionData {
    pub protocol_version_wire: u16,
    pub selected_alpn: Option<Vec<u8>>,
}

/// Interpret what came back from the engine after a handshake that
/// completed: no session at all is its own failure, an unmapped
/// version is a configuration error, and otherwise the negotiated
/// parameters are exactly the session's.
pub fn interpret_session(session: Option<&SessionData>) -> (r: Result<
    NegotiatedTlsParameters,
    TlsError,
>)
    ensures
        session is None ==> r == Err::<NegotiatedTlsParameters, TlsError>(TlsError::SessionMissing),
        session matches Some(s) ==> (if version_of_wire(s.protocol_version_wire) is None {
            r == Err::<NegotiatedTlsParameters, TlsError>(
                TlsError::UnsupportedProtocolVersion(s.protocol_version_wire),
            )
        } else {
            r is Ok && r->Ok_0@.protocol_version == version_of_wire(s.protocol_version_wire)->0
                && r->Ok_0@.application_layer_protocol == opt_repr(s.selected_alpn)
        }),
{
    match session {
        None => Err(TlsError::SessionMissing),
        Some(s) => {
            let protocol_version = match version_from_wire(s.protocol_version_wire) {
                Ok(v) => v,
                Err(e) => {
                    return Err(e);
                },
            };
            let application_layer_protocol = match &s.selected_alpn {
                Some(p) => Some(crate::address::dup_bytes(p)),
                None => None,
            };
            Ok(NegotiatedTlsParameters { protocol_version, application_layer_protocol })
        },
    }
}

/// Interpret the engine's report and, on success, store the negotiated
/// parameters in the context, where every later stage sees them.
pub fn store_handshake_outcome(ctx: &mut Context, session: Option<&SessionData>) -> (r: Result<
    (),
    TlsError,
>)
    ensures
        session is None ==> r == Err::<(), TlsError>(TlsError::SessionMissing) && *final(ctx) == *old(ctx),
        session matches Some(s) ==> (if version_of_wire(s.protocol_version_wire) is None {
            r == Err::<(), TlsError>(TlsError::UnsupportedProtocolVersion(s.protocol_version_wire))
                && *final(ctx) == *old(ctx)
        } else {
            r is Ok && final(ctx)@ == with_negotiated(
                old(ctx)@,
                NegotiatedRepr {
                    protocol_version: version_of_wire(s.protocol_version_wire)->0,
                    application_layer_protocol: opt_repr(s.selected_alpn),
                },
            )
        }),
{
    match interpret_session(session) {
        Ok(params) => {
            ctx.insert_negotiated(params);
            Ok(())
        },
        Err(e) => Err(e),
    }
}

/// Complete a handshake the secure connector demanded. `outcome` is
/// what the engine produced: nothing when the handshake itself failed,
/// otherwise the secured stream and the session it inspected. Failure
/// surfaces as an error together with the untouched context — by this
/// function's type there is no plain stream to fall back to.
pub fn complete_secure<T>(ctx: &mut Context, outcome: Option<(T, Option<SessionData>)>) -> (r:
    Result<T, TlsError>)
    ensures
        outcome is None ==> r == Err::<T, TlsError>(TlsError::Handshake) && *final(ctx) == *old(
            ctx,
        ),
        outcome matches Some((t, session)) ==> (match session {
            None => r == Err::<T, TlsError>(TlsError::SessionMissing) && *final(ctx) == *old(ctx),
            Some(s) => (if version_of_wire(s.protocol_version_wire) is None {
                r == Err::<T, TlsError>(
                    TlsError::UnsupportedProtocolVersion(s.protocol_version_wire),
                ) && *final(ctx) == *old(ctx)
            } else {
                r is Ok && r->Ok_0 == t && final(ctx)@ == with_negotiated(
                    old(ctx)@,
                    NegotiatedRepr {
                        protocol_version: version_of_wire(s.protocol_version_wire)->0,
                        application_layer_protocol: opt_repr(s.selected_alpn),
                    },
                )
            }),
        }),
{
    match outcome {
        None => Err(TlsError::Handshake),
        Some((stream, session)) => {
            match store_handshake_outcome(ctx, session.as_ref()) {
                Ok(()) => Ok(stream),
                Err(e) => Err(e),
            }
        },
    }
}

/// Complete a handshake plan for the unified stream type: on success
/// the secured stream is wrapped as the secure variant. A failed
/// handshake is an error and the context stays untouched — never a
/// silent downgrade to the plain variant.
pub fn complete_unified<T, S>(ctx: &mut Context, outcome: Option<(T, Option<SessionData>)>) -> (r:
    Result<AutoTlsStream<T, S>, TlsError>)
    ensures
        r matches Ok(stream) ==> stream.inner is Secure,
        r is Ok <==> (outcome matches Some((t, session)) && session matches Some(s)
            && version_of_wire(s.protocol_version_wire) is Some),
        r is Err ==> *final(ctx) == *old(ctx),
        outcome matches Some((t, session)) ==> (session matches Some(s) ==> (version_of_wire(
            s.protocol_version_wire,
        ) is Some ==> (r is Ok && r->Ok_0.inner == (AutoTlsStreamData::Secure::<T, S> { inner: t })
            && final(ctx)@ == with_negotiated(
            old(ctx)@,
            NegotiatedRepr {
                protocol_version: version_of_wire(s.protocol_version_wire)->0,
                application_layer_protocol: opt_repr(s.selected_alpn),
            },
        )))),
{
    match complete_secure(ctx, outcome) {
        Ok(stream) => Ok(AutoTlsStream::secure(stream)),
        Err(e) => Err(e),
    }
}

/// A stream that may or may not be secured: exactly one of the two
/// variants is ever constructed, fixed for the stream's lifetime, and
/// every I/O operation dispatches on the tag.
#[derive(Debug)]
pub enum AutoTlsStreamData<T, S> {
    /// A secure stream the engine produced.
    Secure { inner: T },
    /// The inner transport, passed through untouched.
    Plain { inner: S },
}

/// The unified transport handed to whatever consumes the pipeline:
/// agnostic to whether the underlying bytes are encrypted.
#[derive(Debug)]
pub struct AutoTlsStream<T, S> {
    pub inner: AutoTlsStreamData<T, S>,
}

impl<T, S> AutoTlsStream<T, S> {
    /// Wrap a stream the engine secured.
    pub fn secure(inner: T) -> (r: Self)
        ensures
            r.inner == (AutoTlsStreamData::Secure::<T, S> { inner }),
    {
        AutoTlsStream { inner: AutoTlsStreamData::Secure { inner } }
    }

    /// Pass the inner transport through untouched.
    pub fn plain(inner: S) -> (r: Self)
        ensures
            r.inner == (AutoTlsStreamData::Plain::<T, S> { inner }),
    {
        AutoTlsStream { inner: AutoTlsStreamData::Plain { inner } }
    }

    /// Whether the secured variant is active.
    pub fn is_secure(&self) -> (r: bool)
        ensures
            r == (self.inner is Secure),
    {
        match &self.inner {
            AutoTlsStreamData::Secure { .. } => true,
            AutoTlsStreamData::Plain { .. } => false,
        }
    }
}

/// Marks a connector that secures the stream exactly when the resolved
/// application protocol demands it.
#[derive(Debug, Clone, Copy)]
pub struct ConnectorKindAuto;

/// Marks a connector that always secures the stream.
#[derive(Debug, Clone, Copy)]
pub struct ConnectorKindSecure;

/// Marks a connector that secures the stream when a tunnel is asked
/// for: by a context marker first, by a configured host otherwise.
#[derive(Debug, Clone)]
pub struct ConnectorKindTunnel {
    pub host: Option<Host>,
}

/// What the connector decided to do with an established inner
/// connection.
#[derive(Debug)]
pub enum TlsPlan {
    /// Hand the inner stream through untouched.
    Plain,
    /// Run the handshake against `server_host`, configured by
    /// `connector_data` when present.
    Handshake { server_host: Host, connector_data: Option<TlsConnectorData> },
}

/// The connector data a handshake uses: a per-request value in the
/// context wins over the connector's own.
pub open spec fn effective_data(c: ContextRepr, own: Option<TlsConnectorDataRepr>) -> Option<
    TlsConnectorDataRepr,
> {
    if c.connector_data is Some {
        c.connector_data
    } else {
        own
    }
}

/// The transport context a plan acts on: the context's slot if filled,
/// else the freshly computed one.
pub open spec fn resolved_transport(c: ContextRepr, computed: Option<TransportContextRepr>)
    -> Option<TransportContextRepr> {
    if c.transport is Some {
        c.transport
    } else {
        computed
    }
}

/// Whether a resolved transport context flags its destination secure.
pub open spec fn transport_secure(t: TransportContextRepr) -> bool {
    match t.app_protocol {
        Some(p) => protocol_is_secure(p),
        None => false,
    }
}

/// A layer that wraps an inner connector service with a
/// [`TlsConnector`] of the same kind.
#[derive(Debug)]
pub struct TlsConnectorLayer<K = ConnectorKindAuto> {
    pub connector_data: Option<TlsConnectorData>,
    pub kind: K,
}

impl<K> TlsConnectorLayer<K> {
    /// Attach connector data, to be used instead of a process-wide
    /// default.
    pub fn with_connector_data(self, connector_data: TlsConnectorData) -> (r: Self)
        ensures
            r.connector_data == Some(connector_data),
            r.kind == self.kind,
    {
        TlsConnectorLayer { connector_data: Some(connector_data), kind: self.kind }
    }

    /// Attach connector data when one is given.
    pub fn maybe_with_connector_data(self, connector_data: Option<TlsConnectorData>) -> (r: Self)
        ensures
            r.connector_data == connector_data,
            r.kind == self.kind,
    {
        TlsConnectorLayer { connector_data, kind: self.kind }
    }

    /// Attach connector data in place.
    pub fn set_connector_data(&mut self, connector_data: TlsConnectorData)
        ensures
            final(self).connector_data == Some(connector_data),
            final(self).kind == old(self).kind,
    {
        self.connector_data = Some(connector_data);
    }
}

impl TlsConnectorLayer<ConnectorKindAuto> {
    /// A layer whose connectors secure the stream exactly when the
    /// request demands it.
    pub fn http_auto() -> (r: Self)
        ensures
            r.connector_data is None,
    {
        TlsConnectorLayer { connector_data: None, kind: ConnectorKindAuto }
    }

    /// Wrap an inner connector service.
    pub fn layer<S>(&self, inner: S) -> (r: TlsConnector<S, ConnectorKindAuto>)
        ensures
            r.inner == inner,
            opt_repr(r.connector_data) == opt_repr(self.connector_data),
    {
        TlsConnector {
            inner,
            connector_data: match &self.connector_data {
                Some(d) => Some(d.dup()),
                None => None,
            },
            kind: ConnectorKindAuto,
        }
    }
}

impl TlsConnectorLayer<ConnectorKindSecure> {
    /// A layer whose connectors always secure the stream.
    pub fn https() -> (r: Self)
        ensures
            r.connector_data is None,
    {
        TlsConnectorLayer { connector_data: None, kind: ConnectorKindSecure }
    }

    /// Wrap an inner connector service.
    pub fn layer<S>(&self, inner: S) -> (r: TlsConnector<S, ConnectorKindSecure>)
        ensures
            r.inner == inner,
            opt_repr(r.connector_data) == opt_repr(self.connector_data),
    {
        TlsConnector {
            inner,
            connector_data: match &self.connector_data {
                Some(d) => Some(d.dup()),
                None => None,
            },
            kind: ConnectorKindSecure,
        }
    }
}

impl TlsConnectorLayer<ConnectorKindTunnel> {
    /// A layer whose connectors secure the stream when a tunnel is
    /// asked for, falling back to `host` when the context carries no
    /// marker.
    pub fn tunnel(host: Option<Host>) -> (r: Self)
        ensures
            r.connector_data is None,
            r.kind.host == host,
    {
        TlsConnectorLayer { connector_data: None, kind: ConnectorKindTunnel { host } }
    }

    /// Wrap an inner connector service.
    pub fn layer<S>(&self, inner: S) -> (r: TlsConnector<S, ConnectorKindTunnel>)
        ensures
            r.inner == inner,
            opt_repr(r.connector_data) == opt_repr(self.connector_data),
            opt_repr(r.kind.host) == opt_repr(self.kind.host),
    {
        TlsConnector {
            inner,
            connector_data: match &self.connector_data {
                Some(d) => Some(d.dup()),
                None => None,
            },
            kind: ConnectorKindTunnel {
                host: match &self.kind.host {
                    Some(h) => Some(h.dup()),
                    None => None,
                },
            },
        }
    }
}

impl Default for TlsConnectorLayer<ConnectorKindAuto> {
    /// The auto layer is the default.
    fn default() -> (r: Self)
        ensures
            r.connector_data is None,
    {
        TlsConnectorLayer::http_auto()
    }
}

/// A connector that may secure the connection its inner service
/// establishes, depending on its kind.
#[derive(Debug)]
pub struct TlsConnector<S, K = ConnectorKindAuto> {
    pub inner: S,
    pub connector_data: Option<TlsConnectorData>,
    pub kind: K,
}

impl<S, K> TlsConnector<S, K> {
    /// A connector of the given kind, with no connector data attached.
    fn new(inner: S, kind: K) -> (r: Self)
        ensures
            r.inner == inner,
            r.connector_data is None,
            r.kind == kind,
    {
        TlsConnector { inner, connector_data: None, kind }
    }

    /// Attach connector data, to be used instead of a process-wide
    /// default.
    pub fn with_connector_data(self, connector_data: TlsConnectorData) -> (r: Self)
        ensures
            r.inner == self.inner,
            r.connector_data == Some(connector_data),
            r.kind == self.kind,
    {
        TlsConnector {
            inner: self.inner,
            connector_data: Some(connector_data),
            kind: self.kind,
        }
    }

    /// Attach connector data when one is given.
    pub fn maybe_with_connector_data(self, connector_data: Option<TlsConnectorData>) -> (r: Self)
        ensures
            r.inner == self.inner,
            r.connector_data == connector_data,
            r.kind == self.kind,
    {
        TlsConnector { inner: self.inner, connector_data, kind: self.kind }
    }

    /// Attach connector data in place.
    pub fn set_connector_data(&mut self, connector_data: TlsConnectorData)
        ensures
            final(self).inner == old(self).inner,
            final(self).connector_data == Some(connector_data),
            final(self).kind == old(self).kind,
    {
        self.connector_data = Some(connector_data);
    }

    /// The connector data a handshake run now would use, per-request
    /// context value first: an exact copy of it. `None` leaves the
    /// engine to its process-wide default configuration.
    pub fn handshake_connector_data(&self, ctx: &Context) -> (r: Option<TlsConnectorData>)
        ensures
            opt_repr(r) == effective_data(ctx@, opt_repr(self.connector_data)),
    {
        match &ctx.connector_data {
            Some(d) => Some(d.dup()),
            None => match &self.connector_data {
                Some(d) => Some(d.dup()),
                None => None,
            },
        }
    }
}

impl<S> TlsConnector<S, ConnectorKindAuto> {
    /// A connector that secures the stream exactly when the request
    /// demands it.
    pub fn http_auto(inner: S) -> (r: Self)
        ensures
            r.inner == inner,
            r.connector_data is None,
    {
        Self::new(inner, ConnectorKindAuto)
    }

    /// Decide what to do with an established inner connection.
    ///
    /// The transport context is resolved first — the context's slot if
    /// filled, else `computed`, else the resolution error. A
    /// destination not flagged secure passes through as
    /// [`TlsPlan::Plain`] with the context untouched beyond the
    /// transport slot — in particular, no negotiated parameters appear.
    /// A secure destination yields a handshake against the resolved
    /// authority's host.
    pub fn plan(&self, ctx: &mut Context, computed: Option<TransportContext>) -> (r: Result<
        TlsPlan,
        TlsError,
    >)
        ensures
            final(ctx)@.negotiated == old(ctx)@.negotiated,
            resolved_transport(old(ctx)@, opt_repr(computed)) is None ==> r == Err::<
                TlsPlan,
                TlsError,
            >(TlsError::ComputeTransportContext) && *final(ctx) == *old(ctx),
            resolved_transport(old(ctx)@, opt_repr(computed)) matches Some(t) ==> final(ctx)@
                == with_transport(old(ctx)@, t) && r is Ok && (if transport_secure(t) {
                r->Ok_0 matches TlsPlan::Handshake { server_host, connector_data }
                    && server_host@ == t.authority.host && opt_repr(connector_data)
                    == effective_data(old(ctx)@, opt_repr(self.connector_data))
            } else {
                r->Ok_0 is Plain
            }),
    {
        match ctx.get_or_try_insert_transport(computed) {
            Ok(()) => {},
            Err(e) => {
                return Err(e);
            },
        }
        let secure = match &ctx.transport {
            Some(t) => match &t.app_protocol {
                Some(p) => p.is_secure(),
                None => false,
            },
            None => false,  // unreachable: the slot was just filled
        };
        if !secure {
            Ok(TlsPlan::Plain)
        } else {
            let server_host = match &ctx.transport {
                Some(t) => t.authority.host.dup(),
                None => Host::Name(Vec::new()),  // unreachable: the slot was just filled
            };
            let connector_data = self.handshake_connector_data(ctx);
            Ok(TlsPlan::Handshake { server_host, connector_data })
        }
    }
}

impl<S> TlsConnector<S, ConnectorKindSecure> {
    /// A connector that always secures the stream.
    pub fn https(inner: S) -> (r: Self)
        ensures
            r.inner == inner,
            r.connector_data is None,
    {
        Self::new(inner, ConnectorKindSecure)
    }

    /// Decide what to do with an established inner connection: always
    /// a handshake, whatever the transport context's protocol flag. A
    /// failed handshake is reported by the caller as an error — there
    /// is no plain fallback in this plan's range.
    pub fn plan(&self, ctx: &mut Context, computed: Option<TransportContext>) -> (r: Result<
        TlsPlan,
        TlsError,
    >)
        ensures
            final(ctx)@.negotiated == old(ctx)@.negotiated,
            resolved_transport(old(ctx)@, opt_repr(computed)) is None ==> r == Err::<
                TlsPlan,
                TlsError,
            >(TlsError::ComputeTransportContext) && *final(ctx) == *old(ctx),
            resolved_transport(old(ctx)@, opt_repr(computed)) matches Some(t) ==> final(ctx)@
                == with_transport(old(ctx)@, t) && r is Ok && (r->Ok_0 matches TlsPlan::Handshake {
                server_host,
                connector_data,
            } && server_host@ == t.authority.host && opt_repr(connector_data) == effective_data(
                old(ctx)@,
                opt_repr(self.connector_data),
            )),
    {
        match ctx.get_or_try_insert_transport(computed) {
            Ok(()) => {},
            Err(e) => {
                return Err(e);
            },
        }
        let server_host = match &ctx.transport {
            Some(t) => t.authority.host.dup(),
            None => Host::Name(Vec::new()),  // unreachable: the slot was just filled
        };
        let connector_data = self.handshake_connector_data(ctx);
        Ok(TlsPlan::Handshake { server_host, connector_data })
    }
}

impl<S> TlsConnector<S, ConnectorKindTunnel> {
    /// A connector that secures the stream when a tunnel is asked for,
    /// falling back to `host` when the context carries no marker.
    pub fn tunnel(inner: S, host: Option<Host>) -> (r: Self)
        ensures
            r.inner == inner,
            r.connector_data is None,
            r.kind.host == host,
    {
        Self::new(inner, ConnectorKindTunnel { host })
    }

    /// Decide what to do with an established inner connection: the
    /// context's tunnel marker names the server to secure against; with
    /// no marker the configured host does; with neither, the stream
    /// passes through untouched. The marker always wins over the
    /// configured host.
    pub fn plan(&self, ctx: &Context) -> (r: TlsPlan)
        ensures
            ctx@.tls_tunnel matches Some(h) ==> (r matches TlsPlan::Handshake {
                server_host,
                connector_data,
            } && server_host@ == h && opt_repr(connector_data) == effective_data(
                ctx@,
                opt_repr(self.connector_data),
            )),
            ctx@.tls_tunnel is None ==> (self.kind.host matches Some(h) ==> (r
                matches TlsPlan::Handshake { server_host, connector_data } && server_host@ == h@
                && opt_repr(connector_data) == effective_data(
                ctx@,
                opt_repr(self.connector_data),
            ))),
            ctx@.tls_tunnel is None && self.kind.host is None ==> r is Plain,
    {
        let server_host = match &ctx.tls_tunnel {
            Some(t) => t.server_host.dup(),
            None => match &self.kind.host {
                Some(h) => h.dup(),
                None => {
                    return TlsPlan::Plain;
                },
            },
        };
        let connector_data = self.handshake_connector_data(ctx);
        TlsPlan::Handshake { server_host, connector_data }
    }
}

/// The server name a handshake presents: a name pinned in the
/// connector data overrides the resolved host.
pub fn effective_server_host(connector_data: Option<&TlsConnectorData>, resolved: Host) -> (r:
    Host)
    ensures
        match opt_repr_ref(connector_data) {
            Some(d) => match d.server_name {
                Some(n) => r@ == n,
                None => r@ == resolved@,
            },
            None => r@ == resolved@,
        },
{
    match connector_data {
        Some(d) => match &d.server_name {
            Some(n) => n.dup(),
            None => resolved,
        },
        None => resolved,
    }
}

/// The view of an `Option` of references, payload viewed.
pub open spec fn opt_repr_ref<T: View>(o: Option<&T>) -> Option<T::V> {
    match o {
        Some(x) => Some(x@),
        None => None,
    }
}

} // verus!
