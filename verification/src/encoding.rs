//! Byte-level encodings used on the proxy wire: decimal numbers for
//! authorities and standard base64 for Basic credentials.

use vstd::prelude::*;

verus! {

/// The decimal digits of `n`, most significant first, as ASCII bytes.
pub open spec fn dec_seq(n: nat) -> Seq<u8>
    decreases n,
{
    if n < 10 {
        seq![(48 + n) as u8]
    } else {
        dec_seq(n / 10).push((48 + n % 10) as u8)
    }
}

/// Render `n` in decimal ASCII, without leading zeros.
pub fn dec_bytes(n: u16) -> (r: Vec<u8>)
    ensures
        r@ == dec_seq(n as nat),
    decreases n,
{
    if n < 10 {
        let mut v: Vec<u8> = Vec::new();
        v.push(48 + n as u8);
        proof {
            assert(v@ =~= dec_seq(n as nat));
        }
        v
    } else {
        let mut v = dec_bytes(n / 10);
        v.push(48 + (n % 10) as u8);
        proof {
            assert(v@ =~= dec_seq(n as nat));
        }
        v
    }
}

/// The base64 alphabet: the character standing for a six-bit value.
pub open spec fn b64_char(v: nat) -> u8 {
    if v < 26 {
        (65 + v) as u8  // 'A'..='Z'
    } else if v < 52 {
        (97 + (v - 26)) as u8  // 'a'..='z'
    } else if v < 62 {
        (48 + (v - 52)) as u8  // '0'..='9'
    } else if v == 62 {
        43u8  // '+'
    } else {
        47u8  // '/'
    }
}

fn b64_char_of(v: u8) -> (r: u8)
    requires
        v < 64,
    ensures
        r == b64_char(v as nat),
{
    if v < 26 {
        65 + v
    } else if v < 52 {
        97 + (v - 26)
    } else if v < 62 {
        48 + (v - 52)
    } else if v == 62 {
        43
    } else {
        47
    }
}

/// One terminal base64 group: between one and three input bytes become
/// four output characters, `'='`-padded when fewer than three bytes remain.
pub open spec fn b64_group(s: Seq<u8>) -> Seq<u8> {
    let b0 = s[0] as nat;
    if s.len() == 1 {
        seq![b64_char(b0 / 4), b64_char((b0 % 4) * 16), 61u8, 61u8]
    } else if s.len() == 2 {
        let b1 = s[1] as nat;
        seq![
            b64_char(b0 / 4),
            b64_char((b0 % 4) * 16 + b1 / 16),
            b64_char((b1 % 16) * 4),
            61u8,
        ]
    } else {
        let b1 = s[1] as nat;
        let b2 = s[2] as nat;
        seq![
            b64_char(b0 / 4),
            b64_char((b0 % 4) * 16 + b1 / 16),
            b64_char((b1 % 16) * 4 + b2 / 64),
            b64_char(b2 % 64),
        ]
    }
}

/// Standard base64 of a byte sequence, with padding.
pub open spec fn b64_seq(s: Seq<u8>) -> Seq<u8>
    decreases s.len(),
{
    if s.len() == 0 {
        Seq::empty()
    } else if s.len() <= 3 {
        b64_group(s)
    } else {
        b64_group(s.take(3)) + b64_seq(s.skip(3))
    }
}

/// Encode `data` as standard base64 with `'='` padding.
pub fn base64_encode(data: &Vec<u8>) -> (r: Vec<u8>)
    ensures
        r@ == b64_seq(data@),
{
    let mut out: Vec<u8> = Vec::new();
    let mut i: usize = 0;
    proof {
        assert(data@.skip(0) =~= data@);
        assert(out@ + b64_seq(data@) =~= b64_seq(data@));
    }
    while data.len() - i > 3
        invariant
            i <= data.len(),
            out@ + b64_seq(data@.skip(i as int)) == b64_seq(data@),
        decreases data.len() - i,
    {
        let b0 = data[i];
        let b1 = data[i + 1];
        let b2 = data[i + 2];
        let ghost prev = out@;
        out.push(b64_char_of(b0 / 4));
        out.push(b64_char_of((b0 % 4) * 16 + b1 / 16));
        out.push(b64_char_of((b1 % 16) * 4 + b2 / 64));
        out.push(b64_char_of(b2 % 64));
        proof {
            let rem = data@.skip(i as int);
            assert(rem.take(3) =~= seq![b0, b1, b2]);
            assert(rem.skip(3) =~= data@.skip(i as int + 3));
            assert(out@ =~= prev + b64_group(rem.take(3)));
            assert(prev + b64_seq(rem) == b64_seq(data@));
            assert(prev + (b64_group(rem.take(3)) + b64_seq(rem.skip(3)))
                =~= (prev + b64_group(rem.take(3))) + b64_seq(rem.skip(3)));
        }
        i = i + 3;
    }
    let rem = data.len() - i;
    let ghost tail = data@.skip(i as int);
    if rem == 1 {
        let b0 = data[i];
        let ghost prev = out@;
        out.push(b64_char_of(b0 / 4));
        out.push(b64_char_of((b0 % 4) * 16));
        out.push(61);
        out.push(61);
        proof {
            assert(out@ =~= prev + b64_group(tail));
            assert(out@ == b64_seq(data@));
        }
    } else if rem == 2 {
        let b0 = data[i];
        let b1 = data[i + 1];
        let ghost prev = out@;
        out.push(b64_char_of(b0 / 4));
        out.push(b64_char_of((b0 % 4) * 16 + b1 / 16));
        out.push(b64_char_of((b1 % 16) * 4));
        out.push(61);
        proof {
            assert(out@ =~= prev + b64_group(tail));
            assert(out@ == b64_seq(data@));
        }
    } else if rem == 3 {
        let b0 = data[i];
        let b1 = data[i + 1];
        let b2 = data[i + 2];
        let ghost prev = out@;
        out.push(b64_char_of(b0 / 4));
        out.push(b64_char_of((b0 % 4) * 16 + b1 / 16));
        out.push(b64_char_of((b1 % 16) * 4 + b2 / 64));
        out.push(b64_char_of(b2 % 64));
        proof {
            assert(out@ =~= prev + b64_group(tail));
            assert(out@ == b64_seq(data@));
        }
    } else {
        proof {
            assert(tail =~= Seq::<u8>::empty());
            assert(out@ =~= out@ + b64_seq(tail));
        }
    }
    out
}

} // verus!
