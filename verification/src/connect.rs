//! The proxy tunnel wire format: the CONNECT request this client
//! sends, and the status line it validates in the answer.

use vstd::prelude::*;

verus! {

/// `"CONNECT "`.
pub open spec fn connect_prefix_seq() -> Seq<u8> {
    seq![67, 79, 78, 78, 69, 67, 84, 32]
}

/// `" HTTP/1.1\r\n"`.
pub open spec fn http_version_suffix_seq() -> Seq<u8> {
    seq![32, 72, 84, 84, 80, 47, 49, 46, 49, 13, 10]
}

/// `"Host: "`.
pub open spec fn host_prefix_seq() -> Seq<u8> {
    seq![72, 111, 115, 116, 58, 32]
}

/// `"Proxy-Authorization: "`.
pub open spec fn proxy_authorization_prefix_seq() -> Seq<u8> {
    seq![
        80, 114, 111, 120, 121, 45, 65, 117, 116, 104, 111, 114, 105, 122,
        97, 116, 105, 111, 110, 58, 32,
    ]
}

/// `"\r\n"`.
pub open spec fn crlf_seq() -> Seq<u8> {
    seq![13, 10]
}

/// The whole CONNECT request: request line addressed to the target
/// authority, a Host header naming it again, the Proxy-Authorization
/// header when credentials are attached, and the empty line.
pub open spec fn connect_request_seq(authority: Seq<u8>, auth: Option<Seq<u8>>) -> Seq<u8> {
    connect_prefix_seq() + authority + http_version_suffix_seq() + host_prefix_seq() + authority
        + crlf_seq() + (match auth {
        Some(v) => proxy_authorization_prefix_seq() + v + crlf_seq(),
        None => Seq::empty(),
    }) + crlf_seq()
}

fn push_connect_prefix(v: &mut Vec<u8>)
    ensures
        final(v)@ == old(v)@ + connect_prefix_seq(),
{
    v.push(67);
    v.push(79);
    v.push(78);
    v.push(78);
    v.push(69);
    v.push(67);
    v.push(84);
    v.push(32);
    proof {
        assert(v@ =~= old(v)@ + connect_prefix_seq());
    }
}

fn push_http_version_suffix(v: &mut Vec<u8>)
    ensures
        final(v)@ == old(v)@ + http_version_suffix_seq(),
{
    v.push(32);
    v.push(72);
    v.push(84);
    v.push(84);
    v.push(80);
    v.push(47);
    v.push(49);
    v.push(46);
    v.push(49);
    v.push(13);
    v.push(10);
    proof {
        assert(v@ =~= old(v)@ + http_version_suffix_seq());
    }
}

fn push_host_prefix(v: &mut Vec<u8>)
    ensures
        final(v)@ == old(v)@ + host_prefix_seq(),
{
    v.push(72);
    v.push(111);
    v.push(115);
    v.push(116);
    v.push(58);
    v.push(32);
    proof {
        assert(v@ =~= old(v)@ + host_prefix_seq());
    }
}

fn push_proxy_authorization_prefix(v: &mut Vec<u8>)
    ensures
        final(v)@ == old(v)@ + proxy_authorization_prefix_seq(),
{
    v.push(80);
    v.push(114);
    v.push(111);
    v.push(120);
    v.push(121);
    v.push(45);
    v.push(65);
    v.push(117);
    v.push(116);
    v.push(104);
    v.push(111);
    v.push(114);
    v.push(105);
    v.push(122);
    v.push(97);
    v.push(116);
    v.push(105);
    v.push(111);
    v.push(110);
    v.push(58);
    v.push(32);
    proof {
        assert(v@ =~= old(v)@ + proxy_authorization_prefix_seq());
    }
}

fn push_crlf(v: &mut Vec<u8>)
    ensures
        final(v)@ == old(v)@ + crlf_seq(),
{
    v.push(13);
    v.push(10);
    proof {
        assert(v@ =~= old(v)@ + crlf_seq());
    }
}

fn push_all(v: &mut Vec<u8>, s: &Vec<u8>)
    ensures
        final(v)@ == old(v)@ + s@,
{
    let mut i: usize = 0;
    while i < s.len()
        invariant
            i <= s.len(),
            v@ == old(v)@ + s@.take(i as int),
        decreases s.len() - i,
    {
        v.push(s[i]);
        proof {
            assert(old(v)@ + s@.take(i as int + 1) =~= (old(v)@ + s@.take(i as int)).push(
                s@[i as int],
            ));
        }
        i = i + 1;
    }
    proof {
        assert(s@.take(s@.len() as int) =~= s@);
    }
}

/// Build the CONNECT request for `authority`, with the given
/// Proxy-Authorization value attached when credentials call for one.
pub fn build_connect_request(authority: &Vec<u8>, auth: Option<&Vec<u8>>) -> (r: Vec<u8>)
    ensures
        r@ == connect_request_seq(authority@, match auth {
            Some(v) => Some(v@),
            None => None,
        }),
{
    let mut v: Vec<u8> = Vec::new();
    push_connect_prefix(&mut v);
    push_all(&mut v, authority);
    push_http_version_suffix(&mut v);
    push_host_prefix(&mut v);
    push_all(&mut v, authority);
    push_crlf(&mut v);
    match auth {
        Some(value) => {
            push_proxy_authorization_prefix(&mut v);
            push_all(&mut v, value);
            push_crlf(&mut v);
        },
        None => {},
    }
    push_crlf(&mut v);
    proof {
        assert(v@ =~= connect_request_seq(authority@, match auth {
            Some(value) => Some(value@),
            None => None,
        }));
    }
    v
}

/// Whether a byte is an ASCII decimal digit.
pub open spec fn is_digit(b: u8) -> bool {
    48 <= b <= 57
}

/// The status code carried by a response head, when the head starts
/// with a well-formed `HTTP/1.x` status line.
pub open spec fn status_of_head(s: Seq<u8>) -> Option<u16> {
    if s.len() >= 12 && s[0] == 72 && s[1] == 84 && s[2] == 84 && s[3] == 80 && s[4]
        == 47 && s[5] == 49 && s[6] == 46 && (s[7] == 48 || s[7] == 49) && s[8] == 32
        && is_digit(s[9]) && is_digit(s[10]) && is_digit(s[11]) {
        Some((((s[9] - 48) * 100 + (s[10] - 48) * 10 + (s[11] - 48)) as u16))
    } else {
        None
    }
}

/// Read the status code off a response head, if its status line is
/// well formed.
pub fn parse_status(head: &Vec<u8>) -> (r: Option<u16>)
    ensures
        r == status_of_head(head@),
{
    if head.len() < 12 {
        return None;
    }
    if !(head[0] == 72 && head[1] == 84 && head[2] == 84 && head[3] == 80 && head[4]
        == 47 && head[5] == 49 && head[6] == 46) {
        return None;
    }
    if !(head[7] == 48 || head[7] == 49) {
        return None;
    }
    if head[8] != 32 {
        return None;
    }
    let d1 = head[9];
    let d2 = head[10];
    let d3 = head[11];
    if !(48 <= d1 && d1 <= 57 && 48 <= d2 && d2 <= 57 && 48 <= d3 && d3 <= 57) {
        return None;
    }
    Some((d1 - 48) as u16 * 100 + (d2 - 48) as u16 * 10 + (d3 - 48) as u16)
}

/// Whether a status code reports tunnel establishment: any success
/// status does.
pub open spec fn is_success_status(c: u16) -> bool {
    200 <= c < 300
}

} // verus!
