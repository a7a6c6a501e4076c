//! The byte-level surface: encodings, the CONNECT request, and the
//! status line of the proxy's answer.

use rama::address::{Authority, Host};
use rama::connect::{build_connect_request, parse_status};
use rama::encoding::{base64_encode, dec_bytes};
use rama::proxy::{credentials_header_value, validate_connect_response, ProxyCredentials,
    ProxyError};
use rama::tls::{version_from_wire, ProtocolVersion, TlsError};

#[test]
fn base64_test_vectors() {
    let cases: Vec<(&[u8], &[u8])> = vec![
        (b"", b""),
        (b"f", b"Zg=="),
        (b"fo", b"Zm8="),
        (b"foo", b"Zm9v"),
        (b"foob", b"Zm9vYg=="),
        (b"fooba", b"Zm9vYmE="),
        (b"foobar", b"Zm9vYmFy"),
    ];
    for (input, expected) in cases {
        assert_eq!(base64_encode(&input.to_vec()), expected.to_vec());
    }
}

#[test]
fn basic_credentials_value() {
    // The scenario the design fixes: ("alice", "secret").
    let c = ProxyCredentials::Basic {
        username: b"alice".to_vec(),
        password: Some(b"secret".to_vec()),
    };
    assert_eq!(
        credentials_header_value(&c).unwrap(),
        b"Basic YWxpY2U6c2VjcmV0".to_vec()
    );
}

#[test]
fn basic_credentials_absent_password_reads_empty() {
    let c = ProxyCredentials::Basic { username: b"user".to_vec(), password: None };
    // base64 of "user:".
    assert_eq!(credentials_header_value(&c).unwrap(), b"Basic dXNlcjo=".to_vec());
}

#[test]
fn bearer_credentials_value() {
    let c = ProxyCredentials::Bearer(b"abc-123".to_vec());
    assert_eq!(credentials_header_value(&c).unwrap(), b"Bearer abc-123".to_vec());
}

#[test]
fn bearer_token_with_illegal_byte_fails_construction() {
    let c = ProxyCredentials::Bearer(b"ab\x01cd".to_vec());
    assert_eq!(credentials_header_value(&c), Err(ProxyError::InvalidBearerToken));
    let c = ProxyCredentials::Bearer(b"ab\x7fcd".to_vec());
    assert_eq!(credentials_header_value(&c), Err(ProxyError::InvalidBearerToken));
}

#[test]
fn decimal_rendering() {
    assert_eq!(dec_bytes(0), b"0".to_vec());
    assert_eq!(dec_bytes(7), b"7".to_vec());
    assert_eq!(dec_bytes(80), b"80".to_vec());
    assert_eq!(dec_bytes(443), b"443".to_vec());
    assert_eq!(dec_bytes(65535), b"65535".to_vec());
}

#[test]
fn authority_rendering() {
    let a = Authority { host: Host::Name(b"example.com".to_vec()), port: 8443 };
    assert_eq!(a.to_bytes(), b"example.com:8443".to_vec());
    let a = Authority { host: Host::Ipv4(127, 0, 0, 1), port: 80 };
    assert_eq!(a.to_bytes(), b"127.0.0.1:80".to_vec());
}

#[test]
fn connect_request_without_credentials() {
    let r = build_connect_request(&b"example.com:443".to_vec(), None);
    assert_eq!(
        r,
        b"CONNECT example.com:443 HTTP/1.1\r\nHost: example.com:443\r\n\r\n".to_vec()
    );
}

#[test]
fn connect_request_with_credentials() {
    let r = build_connect_request(
        &b"example.com:443".to_vec(),
        Some(&b"Basic YWxpY2U6c2VjcmV0".to_vec()),
    );
    assert_eq!(
        r,
        b"CONNECT example.com:443 HTTP/1.1\r\nHost: example.com:443\r\nProxy-Authorization: Basic YWxpY2U6c2VjcmV0\r\n\r\n".to_vec()
    );
}

#[test]
fn status_line_parsing() {
    assert_eq!(parse_status(&b"HTTP/1.1 200 Connection established\r\n\r\n".to_vec()), Some(200));
    assert_eq!(parse_status(&b"HTTP/1.0 407 Proxy Authentication Required\r\n".to_vec()), Some(407));
    assert_eq!(parse_status(&b"HTTP/1.1 502 \r\n".to_vec()), Some(502));
    assert_eq!(parse_status(&b"HTTP/2 200\r\n".to_vec()), None);
    assert_eq!(parse_status(&b"nonsense".to_vec()), None);
    assert_eq!(parse_status(&b"HTTP/1.1 2x0 huh\r\n".to_vec()), None);
}

#[test]
fn connect_response_validation() {
    assert_eq!(validate_connect_response(&b"HTTP/1.1 200 OK\r\n\r\n".to_vec()), Ok(200));
    assert_eq!(validate_connect_response(&b"HTTP/1.1 204 No Content\r\n\r\n".to_vec()), Ok(204));
    assert_eq!(
        validate_connect_response(&b"HTTP/1.1 407 Proxy Authentication Required\r\n".to_vec()),
        Err(ProxyError::Handshake)
    );
    assert_eq!(
        validate_connect_response(&b"HTTP/1.1 500 Internal Server Error\r\n".to_vec()),
        Err(ProxyError::Handshake)
    );
    assert_eq!(validate_connect_response(&b"".to_vec()), Err(ProxyError::Handshake));
}

#[test]
fn protocol_version_wire_mapping() {
    assert_eq!(version_from_wire(0x0300), Ok(ProtocolVersion::Ssl3));
    assert_eq!(version_from_wire(0x0301), Ok(ProtocolVersion::Tls1_0));
    assert_eq!(version_from_wire(0x0302), Ok(ProtocolVersion::Tls1_1));
    assert_eq!(version_from_wire(0x0303), Ok(ProtocolVersion::Tls1_2));
    assert_eq!(version_from_wire(0x0304), Ok(ProtocolVersion::Tls1_3));
    assert_eq!(
        version_from_wire(0x0305),
        Err(TlsError::UnsupportedProtocolVersion(0x0305))
    );
}
