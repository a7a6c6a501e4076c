//! Destination addressing: hosts, socket addresses and authorities,
//! with the byte rendering used on the CONNECT wire.

use vstd::prelude::*;
use crate::encoding::{dec_seq, dec_bytes};

verus! {

/// An IP address, kept as plain numbers.
#[derive(Debug, Clone, Copy, PartialEq, Eq, Structural)]
pub enum IpAddress {
    V4(u8, u8, u8, u8),
    V6(u16, u16, u16, u16, u16, u16, u16, u16),
}

/// A socket address: where a proxy listens.
#[derive(Debug, Clone, Copy, PartialEq, Eq, Structural)]
pub struct SocketAddress {
    pub ip: IpAddress,
    pub port: u16,
}

/// The host part of an authority: a registered name (as the bytes that
/// appear on the wire) or an IPv4 address.
#[derive(Debug, Clone)]
pub enum Host {
    Name(Vec<u8>),
    Ipv4(u8, u8, u8, u8),
}

/// The mathematical value of a [`Host`].
pub enum HostRepr {
    Name(Seq<u8>),
    Ipv4(u8, u8, u8, u8),
}

impl View for Host {
    type V = HostRepr;

    open spec fn view(&self) -> HostRepr {
        match self {
            Host::Name(n) => HostRepr::Name(n@),
            Host::Ipv4(a, b, c, d) => HostRepr::Ipv4(*a, *b, *c, *d),
        }
    }
}

/// The bytes that render a host in a request line.
pub open spec fn host_seq(h: HostRepr) -> Seq<u8> {
    match h {
        HostRepr::Name(n) => n,
        HostRepr::Ipv4(a, b, c, d) => dec_seq(a as nat) + seq![46u8] + dec_seq(b as nat)
            + seq![46u8] + dec_seq(c as nat) + seq![46u8] + dec_seq(d as nat),
    }
}

impl Host {
    /// An exact copy; spelt out so that its value is pinned down.
    pub fn dup(&self) -> (r: Self)
        ensures
            r@ == self@,
    {
        match self {
            Host::Name(n) => Host::Name(dup_bytes(n)),
            Host::Ipv4(a, b, c, d) => Host::Ipv4(*a, *b, *c, *d),
        }
    }

    /// Render the host as request-line bytes.
    pub fn to_bytes(&self) -> (r: Vec<u8>)
        ensures
            r@ == host_seq(self@),
    {
        match self {
            Host::Name(n) => dup_bytes(n),
            Host::Ipv4(a, b, c, d) => {
                let mut v = dec_bytes(*a as u16);
                v.push(46);
                let mut p = dec_bytes(*b as u16);
                v.append(&mut p);
                v.push(46);
                let mut p = dec_bytes(*c as u16);
                v.append(&mut p);
                v.push(46);
                let mut p = dec_bytes(*d as u16);
                v.append(&mut p);
                proof {
                    assert(v@ =~= host_seq(self@));
                }
                v
            },
        }
    }
}

/// A destination authority: host and port.
#[derive(Debug, Clone)]
pub struct Authority {
    pub host: Host,
    pub port: u16,
}

/// The mathematical value of an [`Authority`].
pub struct AuthorityRepr {
    pub host: HostRepr,
    pub port: u16,
}

impl View for Authority {
    type V = AuthorityRepr;

    open spec fn view(&self) -> AuthorityRepr {
        AuthorityRepr { host: self.host@, port: self.port }
    }
}

/// The bytes that render an authority: `host:port`.
pub open spec fn authority_seq(a: AuthorityRepr) -> Seq<u8> {
    host_seq(a.host) + seq![58u8] + dec_seq(a.port as nat)
}

impl Authority {
    /// An exact copy; spelt out so that its value is pinned down.
    pub fn dup(&self) -> (r: Self)
        ensures
            r@ == self@,
    {
        Authority { host: self.host.dup(), port: self.port }
    }

    /// Render the authority as `host:port` bytes.
    pub fn to_bytes(&self) -> (r: Vec<u8>)
        ensures
            r@ == authority_seq(self@),
    {
        let mut v = self.host.to_bytes();
        v.push(58);
        let mut p = dec_bytes(self.port);
        v.append(&mut p);
        proof {
            assert(v@ =~= authority_seq(self@));
        }
        v
    }
}

/// An exact copy of a byte string, with its contents pinned down.
pub fn dup_bytes(v: &Vec<u8>) -> (r: Vec<u8>)
    ensures
        r@ == v@,
{
    let mut r: Vec<u8> = Vec::new();
    let mut i: usize = 0;
    while i < v.len()
        invariant
            i <= v.len(),
            r@ == v@.take(i as int),
        decreases v.len() - i,
    {
        r.push(v[i]);
        proof {
            assert(r@ =~= v@.take(i as int + 1));
        }
        i = i + 1;
    }
    proof {
        assert(v@.take(v@.len() as int) =~= v@);
    }
    r
}

} // verus!
