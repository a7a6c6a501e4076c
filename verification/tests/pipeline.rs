//! The connection-establishment decisions: when the proxy CONNECT
//! runs, and when the TLS handshake runs.

use rama::address::{Authority, Host, IpAddress, SocketAddress};
use rama::context::{Context, RequestContext, TransportContext};
use rama::proxy::{plan_proxy_connect, HttpProxyConnectorLayer, HttpProxyConnectorService,
    HttpProxyInfo, ProxyCredentials, ProxyError, ProxyPlan, ProxySocketAddr};
use rama::tls::{complete_secure, complete_unified, effective_server_host, interpret_session,
    store_handshake_outcome, AutoTlsStream, Protocol, ProtocolVersion, SessionData, TlsConnector,
    TlsConnectorData, TlsConnectorLayer, TlsError, TlsPlan, TlsTunnel};

fn proxy_addr() -> SocketAddress {
    SocketAddress { ip: IpAddress::V4(10, 0, 0, 1), port: 3128 }
}

fn proxy_info() -> HttpProxyInfo {
    HttpProxyInfo { proxy: proxy_addr(), credentials: None }
}

fn example_request() -> RequestContext {
    RequestContext {
        authority: Some(Authority { host: Host::Name(b"example.com".to_vec()), port: 443 }),
    }
}

fn transport(proto: Option<Protocol>) -> TransportContext {
    TransportContext {
        authority: Authority { host: Host::Name(b"example.com".to_vec()), port: 443 },
        app_protocol: proto,
    }
}

// --- proxy side -------------------------------------------------------

#[test]
fn proxy_absent_means_direct_and_untouched_context() {
    let svc = HttpProxyConnectorService::proxy_from_context(());
    let mut ctx = Context::new();
    let info = svc.resolve_proxy(&mut ctx);
    assert!(info.is_none());
    assert!(ctx.proxy_socket_addr.is_none());
    let plan = plan_proxy_connect(&info, &mut ctx, example_request()).unwrap();
    assert!(matches!(plan, ProxyPlan::Direct));
    // No handshake planned, and the request slot was not even filled.
    assert!(ctx.request.is_none());
}

#[test]
fn proxy_static_always_resolves_and_marks_context() {
    let svc = HttpProxyConnectorService::proxy_static(proxy_info(), ());
    let mut ctx = Context::new();
    let info = svc.resolve_proxy(&mut ctx);
    assert!(info.is_some());
    assert_eq!(ctx.proxy_socket_addr, Some(ProxySocketAddr { addr: proxy_addr() }));
    let plan = plan_proxy_connect(&info, &mut ctx, example_request()).unwrap();
    match plan {
        ProxyPlan::Connect { request } => {
            assert_eq!(
                request,
                b"CONNECT example.com:443 HTTP/1.1\r\nHost: example.com:443\r\n\r\n".to_vec()
            );
        },
        ProxyPlan::Direct => panic!("a resolved proxy must plan a CONNECT"),
    }
}

#[test]
fn proxy_from_context_present_resolves() {
    let svc = HttpProxyConnectorService::proxy_from_context(());
    let mut ctx = Context::new();
    ctx.insert_proxy_info(proxy_info());
    let info = svc.resolve_proxy(&mut ctx);
    assert!(info.is_some());
    assert_eq!(ctx.proxy_socket_addr, Some(ProxySocketAddr { addr: proxy_addr() }));
    let plan = plan_proxy_connect(&info, &mut ctx, example_request()).unwrap();
    assert!(matches!(plan, ProxyPlan::Connect { .. }));
}

#[test]
fn proxy_from_context_absent_means_direct() {
    let svc = HttpProxyConnectorService::proxy_from_context(());
    let mut ctx = Context::new();
    // Something else in the context must not look like proxy info.
    ctx.insert_connector_data(TlsConnectorData { server_name: None });
    let info = svc.resolve_proxy(&mut ctx);
    assert!(info.is_none());
    let plan = plan_proxy_connect(&info, &mut ctx, example_request()).unwrap();
    assert!(matches!(plan, ProxyPlan::Direct));
}

#[test]
fn proxy_layer_wraps_service() {
    let layer = HttpProxyConnectorLayer::proxy_static(proxy_info());
    let svc = layer.layer(());
    let mut ctx = Context::new();
    assert!(svc.resolve_proxy(&mut ctx).is_some());

    let layer = HttpProxyConnectorLayer::proxy_from_context();
    let svc = layer.layer(());
    let mut ctx = Context::new();
    assert!(svc.resolve_proxy(&mut ctx).is_none());
}

#[test]
fn proxy_missing_authority_is_an_error() {
    let svc = HttpProxyConnectorService::proxy_static(proxy_info(), ());
    let mut ctx = Context::new();
    let info = svc.resolve_proxy(&mut ctx);
    let no_authority = RequestContext { authority: None };
    assert_eq!(
        plan_proxy_connect(&info, &mut ctx, no_authority).unwrap_err(),
        ProxyError::MissingAuthority
    );
}

#[test]
fn proxy_connect_carries_credentials_header() {
    let info = Some(HttpProxyInfo {
        proxy: proxy_addr(),
        credentials: Some(ProxyCredentials::Basic {
            username: b"alice".to_vec(),
            password: Some(b"secret".to_vec()),
        }),
    });
    let mut ctx = Context::new();
    let plan = plan_proxy_connect(&info, &mut ctx, example_request()).unwrap();
    match plan {
        ProxyPlan::Connect { request } => {
            assert_eq!(
                request,
                b"CONNECT example.com:443 HTTP/1.1\r\nHost: example.com:443\r\nProxy-Authorization: Basic YWxpY2U6c2VjcmV0\r\n\r\n".to_vec()
            );
        },
        ProxyPlan::Direct => panic!("a resolved proxy must plan a CONNECT"),
    }
}

#[test]
fn proxy_illegal_bearer_fails_before_any_io() {
    let info = Some(HttpProxyInfo {
        proxy: proxy_addr(),
        credentials: Some(ProxyCredentials::Bearer(b"bad\x00token".to_vec())),
    });
    let mut ctx = Context::new();
    assert_eq!(
        plan_proxy_connect(&info, &mut ctx, example_request()).unwrap_err(),
        ProxyError::InvalidBearerToken
    );
}

// --- TLS side ---------------------------------------------------------

#[test]
fn auto_non_secure_stays_plain_with_no_negotiated_parameters() {
    let conn = TlsConnector::http_auto(());
    let mut ctx = Context::new();
    let plan = conn.plan(&mut ctx, Some(transport(Some(Protocol::Http)))).unwrap();
    assert!(matches!(plan, TlsPlan::Plain));
    // Observable absence: no negotiated TLS parameters in the context.
    assert!(ctx.negotiated.is_none());

    // No application protocol at all is not secure either.
    let mut ctx = Context::new();
    let plan = conn.plan(&mut ctx, Some(transport(None))).unwrap();
    assert!(matches!(plan, TlsPlan::Plain));
    assert!(ctx.negotiated.is_none());
}

#[test]
fn auto_secure_plans_handshake_against_resolved_host() {
    let conn = TlsConnector::http_auto(());
    let mut ctx = Context::new();
    let plan = conn.plan(&mut ctx, Some(transport(Some(Protocol::Https)))).unwrap();
    match plan {
        TlsPlan::Handshake { server_host, connector_data } => {
            assert_eq!(server_host.to_bytes(), b"example.com".to_vec());
            assert!(connector_data.is_none());
        },
        TlsPlan::Plain => panic!("a secure destination must plan a handshake"),
    }
}

#[test]
fn auto_missing_transport_context_is_an_error() {
    let conn = TlsConnector::http_auto(());
    let mut ctx = Context::new();
    assert_eq!(conn.plan(&mut ctx, None).unwrap_err(), TlsError::ComputeTransportContext);
}

#[test]
fn secure_always_attempts_handshake() {
    let conn = TlsConnector::https(());
    // Even a destination flagged non-secure is secured.
    let mut ctx = Context::new();
    let plan = conn.plan(&mut ctx, Some(transport(Some(Protocol::Http)))).unwrap();
    assert!(matches!(plan, TlsPlan::Handshake { .. }));
}

#[test]
fn failed_handshake_is_an_error_never_a_plain_fallback() {
    // A handshake that completed without a session is a distinct
    // failure; the context stays untouched and no stream is yielded.
    let mut ctx = Context::new();
    assert_eq!(store_handshake_outcome(&mut ctx, None).unwrap_err(), TlsError::SessionMissing);
    assert!(ctx.negotiated.is_none());
    assert!(interpret_session(None).is_err());
}

#[test]
fn unmapped_protocol_version_is_a_configuration_error() {
    let mut ctx = Context::new();
    let session = SessionData { protocol_version_wire: 0x0299, selected_alpn: None };
    assert_eq!(
        store_handshake_outcome(&mut ctx, Some(&session)).unwrap_err(),
        TlsError::UnsupportedProtocolVersion(0x0299)
    );
    assert!(ctx.negotiated.is_none());
}

#[test]
fn successful_handshake_stores_negotiated_parameters() {
    let mut ctx = Context::new();
    let session = SessionData {
        protocol_version_wire: 0x0304,
        selected_alpn: Some(b"h2".to_vec()),
    };
    store_handshake_outcome(&mut ctx, Some(&session)).unwrap();
    let params = ctx.negotiated.as_ref().expect("negotiated parameters stored");
    assert_eq!(params.protocol_version, ProtocolVersion::Tls1_3);
    assert_eq!(params.application_layer_protocol, Some(b"h2".to_vec()));
}

#[test]
fn secure_completion_returns_stream_only_with_session() {
    let mut ctx = Context::new();
    let out: Option<(u8, Option<SessionData>)> = None;
    assert_eq!(complete_secure(&mut ctx, out).unwrap_err(), TlsError::Handshake);
    let out = Some((7u8, None));
    assert_eq!(complete_secure(&mut ctx, out).unwrap_err(), TlsError::SessionMissing);
    assert!(ctx.negotiated.is_none());
    let session = SessionData { protocol_version_wire: 0x0303, selected_alpn: None };
    let out = Some((7u8, Some(session)));
    assert_eq!(complete_secure(&mut ctx, out).unwrap(), 7u8);
    assert_eq!(
        ctx.negotiated.as_ref().unwrap().protocol_version,
        ProtocolVersion::Tls1_2
    );
}

#[test]
fn unified_completion_never_downgrades_to_plain() {
    let mut ctx = Context::new();
    let r: Result<AutoTlsStream<u8, u8>, TlsError> = complete_unified(&mut ctx, None);
    assert!(r.is_err());
    let session = SessionData { protocol_version_wire: 0x0304, selected_alpn: None };
    let r: Result<AutoTlsStream<u8, u8>, TlsError> =
        complete_unified(&mut ctx, Some((1u8, Some(session))));
    assert!(r.unwrap().is_secure());
    let plain: AutoTlsStream<u8, u8> = AutoTlsStream::plain(2u8);
    assert!(!plain.is_secure());
}

#[test]
fn errors_carry_context_notes() {
    assert_eq!(ProxyError::InnerConnect.message(), "establish inner stream");
    assert_eq!(ProxyError::Handshake.message(), "http proxy handshake");
    assert_eq!(TlsError::SessionMissing.message(), "tls connector: failed to establish session");
    assert_eq!(
        TlsError::UnsupportedProtocolVersion(0x0299).message(),
        "tls connector: unmapped protocol version"
    );
}

#[test]
fn tunnel_without_marker_or_host_stays_plain() {
    let conn = TlsConnector::tunnel((), None);
    let ctx = Context::new();
    assert!(matches!(conn.plan(&ctx), TlsPlan::Plain));
}

#[test]
fn tunnel_with_configured_host_secures_against_it() {
    let conn = TlsConnector::tunnel((), Some(Host::Name(b"fallback.test".to_vec())));
    let ctx = Context::new();
    match conn.plan(&ctx) {
        TlsPlan::Handshake { server_host, .. } => {
            assert_eq!(server_host.to_bytes(), b"fallback.test".to_vec());
        },
        TlsPlan::Plain => panic!("a configured host must plan a handshake"),
    }
}

#[test]
fn tunnel_marker_wins_over_configured_host() {
    let conn = TlsConnector::tunnel((), Some(Host::Name(b"fallback.test".to_vec())));
    let mut ctx = Context::new();
    ctx.insert_tls_tunnel(TlsTunnel { server_host: Host::Name(b"marker.test".to_vec()) });
    match conn.plan(&ctx) {
        TlsPlan::Handshake { server_host, .. } => {
            assert_eq!(server_host.to_bytes(), b"marker.test".to_vec());
        },
        TlsPlan::Plain => panic!("a tunnel marker must plan a handshake"),
    }
}

#[test]
fn per_request_connector_data_wins_over_connector_default() {
    let conn = TlsConnector::https(()).with_connector_data(TlsConnectorData {
        server_name: Some(Host::Name(b"own.test".to_vec())),
    });
    let mut ctx = Context::new();
    ctx.insert_connector_data(TlsConnectorData {
        server_name: Some(Host::Name(b"request.test".to_vec())),
    });
    let plan = conn.plan(&mut ctx, Some(transport(Some(Protocol::Https)))).unwrap();
    match plan {
        TlsPlan::Handshake { connector_data, .. } => {
            let name = connector_data.unwrap().server_name.unwrap();
            assert_eq!(name.to_bytes(), b"request.test".to_vec());
        },
        TlsPlan::Plain => panic!("the secure connector always plans a handshake"),
    }
}

#[test]
fn pinned_server_name_overrides_resolved_host() {
    let data = TlsConnectorData { server_name: Some(Host::Name(b"pinned.test".to_vec())) };
    let picked = effective_server_host(Some(&data), Host::Name(b"resolved.test".to_vec()));
    assert_eq!(picked.to_bytes(), b"pinned.test".to_vec());

    let data = TlsConnectorData { server_name: None };
    let picked = effective_server_host(Some(&data), Host::Name(b"resolved.test".to_vec()));
    assert_eq!(picked.to_bytes(), b"resolved.test".to_vec());

    let picked = effective_server_host(None, Host::Name(b"resolved.test".to_vec()));
    assert_eq!(picked.to_bytes(), b"resolved.test".to_vec());
}

#[test]
fn context_insert_overwrites_same_typed_entry() {
    let mut ctx = Context::new();
    ctx.insert_connector_data(TlsConnectorData {
        server_name: Some(Host::Name(b"first.test".to_vec())),
    });
    ctx.insert_connector_data(TlsConnectorData {
        server_name: Some(Host::Name(b"second.test".to_vec())),
    });
    let name = ctx.connector_data.as_ref().unwrap().server_name.as_ref().unwrap();
    assert_eq!(name.to_bytes(), b"second.test".to_vec());
}

#[test]
fn layers_build_connectors_of_their_kind() {
    let layer = TlsConnectorLayer::http_auto();
    let conn = layer.layer(());
    let mut ctx = Context::new();
    assert!(matches!(
        conn.plan(&mut ctx, Some(transport(Some(Protocol::Http)))).unwrap(),
        TlsPlan::Plain
    ));

    let layer = TlsConnectorLayer::https().with_connector_data(TlsConnectorData {
        server_name: None,
    });
    let conn = layer.layer(());
    let mut ctx = Context::new();
    assert!(matches!(
        conn.plan(&mut ctx, Some(transport(Some(Protocol::Http)))).unwrap(),
        TlsPlan::Handshake { .. }
    ));

    let layer = TlsConnectorLayer::tunnel(Some(Host::Name(b"fallback.test".to_vec())));
    let conn = layer.layer(());
    let ctx = Context::new();
    assert!(matches!(conn.plan(&ctx), TlsPlan::Handshake { .. }));
}

fn require_send<T: Send>() {}

fn require_sync<T: Sync>() {}

#[test]
fn assert_send() {
    require_send::<TlsConnectorLayer>();
}

#[test]
fn assert_sync() {
    require_sync::<TlsConnectorLayer>();
}
