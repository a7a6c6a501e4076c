//! Routing a connection through an upstream HTTP proxy: resolving
//! whether a proxy applies, and preparing the CONNECT handshake —
//! credentials included — when one does.

use vstd::prelude::*;
use crate::address::{authority_seq, dup_bytes, SocketAddress};
use crate::connect::{build_connect_request, connect_request_seq, is_success_status, parse_status,
    status_of_head};
use crate::context::{opt_repr, Context, ContextRepr, RequestContext, with_proxy_socket_addr,
    with_request};
use crate::encoding::{b64_seq, base64_encode};

verus! {

/// The errors the proxy side can report, each tied by contract to the
/// inputs that produce it.
#[derive(Debug, Clone, Copy, PartialEq, Eq, Structural)]
pub enum ProxyError {
    /// The proxy-info provider failed.
    Provider,
    /// The inner connector failed to establish the raw stream.
    InnerConnect,
    /// No target authority could be determined for the CONNECT line.
    MissingAuthority,
    /// A bearer token holds a byte that cannot appear in a header.
    InvalidBearerToken,
    /// The proxy answered the CONNECT with something other than
    /// success, or the exchange itself failed.
    Handshake,
}

impl ProxyError {
    /// A human-readable account of the error, the short context note
    /// each stage contributes to the causal chain.
    pub fn message(&self) -> (r: &'static str) {
        match self {
            ProxyError::Provider => "fetch proxy info from provider",
            ProxyError::InnerConnect => "establish inner stream",
            ProxyError::MissingAuthority => "missing http authority",
            ProxyError::InvalidBearerToken => "define http proxy bearer token",
            ProxyError::Handshake => "http proxy handshake",
        }
    }
}

/// Credentials for the proxy connection.
#[derive(Debug, Clone)]
pub enum ProxyCredentials {
    Basic { username: Vec<u8>, password: Option<Vec<u8>> },
    Bearer(Vec<u8>),
}

/// The mathematical value of [`ProxyCredentials`].
pub enum CredentialsRepr {
    Basic { username: Seq<u8>, password: Option<Seq<u8>> },
    Bearer(Seq<u8>),
}

impl View for ProxyCredentials {
    type V = CredentialsRepr;

    open spec fn view(&self) -> CredentialsRepr {
        match self {
            ProxyCredentials::Basic { username, password } => CredentialsRepr::Basic {
                username: username@,
                password: match password {
                    Some(p) => Some(p@),
                    None => None,
                },
            },
            ProxyCredentials::Bearer(t) => CredentialsRepr::Bearer(t@),
        }
    }
}

impl ProxyCredentials {
    /// An exact copy; spelt out so that its value is pinned down.
    pub fn dup(&self) -> (r: Self)
        ensures
            r@ == self@,
    {
        match self {
            ProxyCredentials::Basic { username, password } => ProxyCredentials::Basic {
                username: dup_bytes(username),
                password: match password {
                    Some(p) => Some(dup_bytes(p)),
                    None => None,
                },
            },
            ProxyCredentials::Bearer(t) => ProxyCredentials::Bearer(dup_bytes(t)),
        }
    }
}

/// What it takes to establish a connection over an HTTP proxy.
#[derive(Debug, Clone)]
pub struct HttpProxyInfo {
    /// The proxy address to connect to.
    pub proxy: SocketAddress,
    /// The credentials to use for the proxy connection.
    pub credentials: Option<ProxyCredentials>,
}

/// The mathematical value of [`HttpProxyInfo`].
pub struct HttpProxyInfoRepr {
    pub proxy: SocketAddress,
    pub credentials: Option<CredentialsRepr>,
}

impl View for HttpProxyInfo {
    type V = HttpProxyInfoRepr;

    open spec fn view(&self) -> HttpProxyInfoRepr {
        HttpProxyInfoRepr { proxy: self.proxy, credentials: opt_repr(self.credentials) }
    }
}

impl HttpProxyInfo {
    /// An exact copy; spelt out so that its value is pinned down.
    pub fn dup(&self) -> (r: Self)
        ensures
            r@ == self@,
    {
        HttpProxyInfo {
            proxy: self.proxy,
            credentials: match &self.credentials {
                Some(c) => Some(c.dup()),
                None => None,
            },
        }
    }
}

/// The proxy address, as later stages find it in the context.
#[derive(Debug, Clone, Copy, PartialEq, Eq, Structural)]
pub struct ProxySocketAddr {
    pub addr: SocketAddress,
}

impl ProxySocketAddr {
    /// Wrap a proxy address for the context.
    pub fn new(addr: SocketAddress) -> (r: Self)
        ensures
            r.addr == addr,
    {
        ProxySocketAddr { addr }
    }
}

/// `"Basic "`.
pub open spec fn basic_prefix_seq() -> Seq<u8> {
    seq![66, 97, 115, 105, 99, 32]
}

/// `"Bearer "`.
pub open spec fn bearer_prefix_seq() -> Seq<u8> {
    seq![66, 101, 97, 114, 101, 114, 32]
}

/// The Basic authorization header value: the base64 of
/// `username:password`, an absent password reading as empty.
pub open spec fn basic_authorization_seq(username: Seq<u8>, password: Option<Seq<u8>>) -> Seq<
    u8,
> {
    basic_prefix_seq() + b64_seq(username + seq![58] + (match password {
        Some(p) => p,
        None => Seq::empty(),
    }))
}

/// The Bearer authorization header value: the token as given.
pub open spec fn bearer_authorization_seq(token: Seq<u8>) -> Seq<u8> {
    bearer_prefix_seq() + token
}

/// Whether a byte may appear in a header value.
pub open spec fn header_value_byte_ok(b: u8) -> bool {
    b == 9 || (32 <= b && b != 127)
}

/// Whether a bearer token is legal as a header value.
pub open spec fn bearer_token_ok(t: Seq<u8>) -> bool {
    forall|i: int| 0 <= i < t.len() ==> header_value_byte_ok(#[trigger] t[i])
}

/// The header value given credentials produce, when they produce one.
pub open spec fn auth_value_seq(c: CredentialsRepr) -> Seq<u8> {
    match c {
        CredentialsRepr::Basic { username, password } => basic_authorization_seq(
            username,
            password,
        ),
        CredentialsRepr::Bearer(t) => bearer_authorization_seq(t),
    }
}

/// Whether credentials can be turned into a header value at all:
/// Basic always can; a Bearer token must be legal.
pub open spec fn credentials_ok(c: CredentialsRepr) -> bool {
    match c {
        CredentialsRepr::Basic { .. } => true,
        CredentialsRepr::Bearer(t) => bearer_token_ok(t),
    }
}

/// The Proxy-Authorization value for the given credentials: Basic
/// encodes `username:password` in base64; Bearer carries the token,
/// which must be legal in a header — an illegal token fails
/// construction here, never on the wire.
pub fn credentials_header_value(c: &ProxyCredentials) -> (r: Result<Vec<u8>, ProxyError>)
    ensures
        credentials_ok(c@) ==> r is Ok && r->Ok_0@ == auth_value_seq(c@),
        !credentials_ok(c@) ==> r == Err::<Vec<u8>, ProxyError>(ProxyError::InvalidBearerToken),
{
    match c {
        ProxyCredentials::Basic { username, password } => {
            let mut payload = dup_bytes(username);
            payload.push(58);
            match password {
                Some(p) => {
                    let mut rest = dup_bytes(p);
                    payload.append(&mut rest);
                },
                None => {},
            }
            proof {
                assert(payload@ =~= username@ + seq![58] + (match password {
                    Some(p) => p@,
                    None => Seq::<u8>::empty(),
                }));
            }
            let encoded = base64_encode(&payload);
            let mut v: Vec<u8> = Vec::new();
            v.push(66);
            v.push(97);
            v.push(115);
            v.push(105);
            v.push(99);
            v.push(32);
            let mut e = encoded;
            v.append(&mut e);
            proof {
                assert(v@ =~= auth_value_seq(c@));
            }
            Ok(v)
        },
        ProxyCredentials::Bearer(token) => {
            let mut i: usize = 0;
            while i < token.len()
                invariant
                    i <= token.len(),
                    c@ == CredentialsRepr::Bearer(token@),
                    forall|j: int| 0 <= j < i ==> header_value_byte_ok(#[trigger] token@[j]),
                decreases token.len() - i,
            {
                let b = token[i];
                if !(b == 9 || (32 <= b && b != 127)) {
                    proof {
                        assert(!header_value_byte_ok(token@[i as int]));
                        assert(!bearer_token_ok(token@));
                    }
                    return Err(ProxyError::InvalidBearerToken);
                }
                i = i + 1;
            }
            let mut v: Vec<u8> = Vec::new();
            v.push(66);
            v.push(101);
            v.push(97);
            v.push(114);
            v.push(101);
            v.push(114);
            v.push(32);
            let mut t = dup_bytes(token);
            v.append(&mut t);
            proof {
                assert(v@ =~= auth_value_seq(c@));
            }
            Ok(v)
        },
    }
}

/// The capability the proxy connector is polymorphic over: resolving
/// proxy info for a request. The two supported behaviours are a fixed
/// value and a context lookup; both live in this crate.
pub trait HttpProxyProvider: Sized {
    /// What this provider resolves for a request with the given
    /// ambient state.
    spec fn provided(&self, c: ContextRepr) -> Option<HttpProxyInfoRepr>;

    /// Resolve proxy info, exactly as [`Self::provided`] says.
    fn info(&self, ctx: &Context) -> (r: Option<HttpProxyInfo>)
        ensures
            opt_repr(r) == self.provided(ctx@),
    ;
}

/// The static provider: a fixed proxy applies to every request.
impl HttpProxyProvider for HttpProxyInfo {
    open spec fn provided(&self, c: ContextRepr) -> Option<HttpProxyInfoRepr> {
        Some(self@)
    }

    fn info(&self, ctx: &Context) -> (r: Option<HttpProxyInfo>) {
        Some(self.dup())
    }
}

/// The context-derived provider: a proxy applies exactly when the
/// request's context carries proxy info.
#[derive(Debug, Clone, Copy)]
pub struct FromContext;

impl HttpProxyProvider for FromContext {
    open spec fn provided(&self, c: ContextRepr) -> Option<HttpProxyInfoRepr> {
        c.proxy_info
    }

    fn info(&self, ctx: &Context) -> (r: Option<HttpProxyInfo>) {
        match &ctx.proxy_info {
            Some(i) => Some(i.dup()),
            None => None,
        }
    }
}

/// A layer that wraps an inner connector service with an
/// [`HttpProxyConnectorService`] using this layer's provider.
#[derive(Debug)]
pub struct HttpProxyConnectorLayer<P> {
    pub provider: P,
}

impl HttpProxyConnectorLayer<HttpProxyInfo> {
    /// A layer whose services tunnel every connection over the given
    /// proxy.
    pub fn proxy_static(info: HttpProxyInfo) -> (r: Self)
        ensures
            r.provider == info,
    {
        HttpProxyConnectorLayer { provider: info }
    }

    /// Wrap an inner connector service.
    pub fn layer<S>(&self, inner: S) -> (r: HttpProxyConnectorService<S, HttpProxyInfo>)
        ensures
            r.inner == inner,
            r.provider@ == self.provider@,
    {
        HttpProxyConnectorService::new(self.provider.dup(), inner)
    }
}

impl HttpProxyConnectorLayer<FromContext> {
    /// A layer whose services tunnel a connection exactly when the
    /// context carries proxy info.
    pub fn proxy_from_context() -> (r: Self) {
        HttpProxyConnectorLayer { provider: FromContext }
    }

    /// Wrap an inner connector service.
    pub fn layer<S>(&self, inner: S) -> (r: HttpProxyConnectorService<S, FromContext>)
        ensures
            r.inner == inner,
    {
        HttpProxyConnectorService::new(FromContext, inner)
    }
}

/// A connector that may tunnel the connection its inner service
/// establishes over an HTTP proxy, as its provider resolves.
#[derive(Debug)]
pub struct HttpProxyConnectorService<S, P> {
    pub inner: S,
    pub provider: P,
}

impl<S, P> HttpProxyConnectorService<S, P> {
    /// A connector over the given provider and inner service.
    pub fn new(provider: P, inner: S) -> (r: Self)
        ensures
            r.inner == inner,
            r.provider == provider,
    {
        HttpProxyConnectorService { inner, provider }
    }
}

impl<S> HttpProxyConnectorService<S, HttpProxyInfo> {
    /// A connector that tunnels every connection over the given proxy.
    pub fn proxy_static(info: HttpProxyInfo, inner: S) -> (r: Self)
        ensures
            r.inner == inner,
            r.provider == info,
    {
        Self::new(info, inner)
    }
}

impl<S> HttpProxyConnectorService<S, FromContext> {
    /// A connector that tunnels a connection exactly when the context
    /// carries proxy info.
    pub fn proxy_from_context(inner: S) -> (r: Self)
        ensures
            r.inner == inner,
    {
        Self::new(FromContext, inner)
    }
}

impl<S, P: HttpProxyProvider> HttpProxyConnectorService<S, P> {
    /// Resolve proxy info for this request and, when one applies, make
    /// the proxy's address visible to every later stage.
    pub fn resolve_proxy(&self, ctx: &mut Context) -> (r: Option<HttpProxyInfo>)
        ensures
            opt_repr(r) == self.provider.provided(old(ctx)@),
            r matches Some(i) ==> final(ctx)@ == with_proxy_socket_addr(
                old(ctx)@,
                ProxySocketAddr { addr: i.proxy },
            ),
            r is None ==> *final(ctx) == *old(ctx),
    {
        let info = self.provider.info(ctx);
        match &info {
            Some(i) => {
                ctx.insert_proxy_socket_addr(ProxySocketAddr::new(i.proxy));
            },
            None => {},
        }
        info
    }
}

/// What the proxy connector decided to do with an established inner
/// connection.
#[derive(Debug)]
pub enum ProxyPlan {
    /// No proxy applies: the inner connection is used unmodified, no
    /// handshake is attempted.
    Direct,
    /// A proxy applies: send this CONNECT request over the raw stream
    /// and validate the answer.
    Connect { request: Vec<u8> },
}

/// Decide the CONNECT handshake for an established inner connection.
///
/// A handshake is planned exactly when proxy info resolved to present;
/// absent info passes the connection through untouched. With info
/// present, the target authority comes from the request slot (filled
/// from `computed` if empty); no determinable authority is an error,
/// and so is an illegal bearer token — both before any byte would go
/// out.
pub fn plan_proxy_connect(
    info: &Option<HttpProxyInfo>,
    ctx: &mut Context,
    computed: RequestContext,
) -> (r: Result<ProxyPlan, ProxyError>)
    ensures
        info is None ==> r is Ok && r->Ok_0 is Direct && *final(ctx) == *old(ctx),
        info matches Some(i) ==> {
            let req = if old(ctx)@.request is Some {
                old(ctx)@.request->0
            } else {
                computed@
            };
            final(ctx)@ == (if old(ctx)@.request is Some {
                old(ctx)@
            } else {
                with_request(old(ctx)@, computed@)
            }) && (match req.authority {
                None => r == Err::<ProxyPlan, ProxyError>(ProxyError::MissingAuthority),
                Some(a) => match i@.credentials {
                    None => r is Ok && (r->Ok_0 matches ProxyPlan::Connect { request }
                        && request@ == connect_request_seq(authority_seq(a), None)),
                    Some(c) => if credentials_ok(c) {
                        r is Ok && (r->Ok_0 matches ProxyPlan::Connect { request } && request@
                            == connect_request_seq(authority_seq(a), Some(auth_value_seq(c))))
                    } else {
                        r == Err::<ProxyPlan, ProxyError>(ProxyError::InvalidBearerToken)
                    },
                },
            })
        },
{
    let i = match info {
        Some(i) => i,
        None => {
            return Ok(ProxyPlan::Direct);
        },
    };
    ctx.get_or_insert_request(computed);
    let authority = match &ctx.request {
        Some(rc) => match &rc.authority {
            Some(a) => a.to_bytes(),
            None => {
                return Err(ProxyError::MissingAuthority);
            },
        },
        None => {
            return Err(ProxyError::MissingAuthority);  // unreachable: the slot was just filled
        },
    };
    let auth = match &i.credentials {
        Some(c) => match credentials_header_value(c) {
            Ok(v) => Some(v),
            Err(e) => {
                return Err(e);
            },
        },
        None => None,
    };
    let request = match &auth {
        Some(v) => build_connect_request(&authority, Some(v)),
        None => build_connect_request(&authority, None),
    };
    Ok(ProxyPlan::Connect { request })
}

/// Validate the proxy's answer to the CONNECT: any success status
/// means the tunnel stands; anything else is a handshake failure.
pub fn validate_connect_response(head: &Vec<u8>) -> (r: Result<u16, ProxyError>)
    ensures
        (status_of_head(head@) matches Some(c) && is_success_status(c)) <==> r is Ok,
        r matches Ok(c) ==> Some(c) == status_of_head(head@),
        r is Err ==> r == Err::<u16, ProxyError>(ProxyError::Handshake),
{
    match parse_status(head) {
        Some(c) => {
            if 200 <= c && c < 300 {
                Ok(c)
            } else {
                Err(ProxyError::Handshake)
            }
        },
        None => Err(ProxyError::Handshake),
    }
}

} // verus!
