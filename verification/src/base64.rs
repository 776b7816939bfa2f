//! RFC 4648 base64 encoding, standard alphabet with `=` padding: the exact
//! output is pinned down by a recursive specification over 3-byte groups.

use vstd::prelude::*;

verus! {

/// The ASCII byte the standard alphabet assigns to a 6-bit value: `A`-`Z`,
/// then `a`-`z`, then `0`-`9`, then `+` and `/`.
pub open spec fn b64_code(v: int) -> u8
    recommends
        0 <= v < 64,
{
    if 0 <= v < 26 {
        (65 + v) as u8
    } else if 26 <= v < 52 {
        (71 + v) as u8
    } else if 52 <= v < 62 {
        (v - 4) as u8
    } else if v == 62 {
        43u8
    } else {
        47u8
    }
}

/// No alphabet byte coincides with the padding byte `=` (61), and all are
/// ASCII.
pub proof fn lemma_b64_code_not_pad(v: int)
    ensures
        b64_code(v) != 61,
        b64_code(v) < 128,
{
}

/// The four output bytes of a full 3-byte group: the 24-bit quantity
/// `a:b:c` cut into 6-bit slices, most significant first.
pub open spec fn enc3(a: u8, b: u8, c: u8) -> Seq<u8> {
    seq![
        b64_code(a as int / 4),
        b64_code((a as int % 4) * 16 + b as int / 16),
        b64_code((b as int % 16) * 4 + c as int / 64),
        b64_code(c as int % 64),
    ]
}

/// The four output bytes of a trailing 2-byte group: three meaningful
/// slices, then one padding byte.
pub open spec fn enc2(a: u8, b: u8) -> Seq<u8> {
    seq![
        b64_code(a as int / 4),
        b64_code((a as int % 4) * 16 + b as int / 16),
        b64_code((b as int % 16) * 4),
        61u8,
    ]
}

/// The four output bytes of a trailing 1-byte group: two meaningful
/// slices, then two padding bytes.
pub open spec fn enc1(a: u8) -> Seq<u8> {
    seq![b64_code(a as int / 4), b64_code((a as int % 4) * 16), 61u8, 61u8]
}

/// The ASCII bytes of the base64 encoding of `data`.
pub open spec fn base64_bytes(data: Seq<u8>) -> Seq<u8>
    decreases data.len(),
{
    if data.len() == 0 {
        Seq::empty()
    } else if data.len() == 1 {
        enc1(data[0])
    } else if data.len() == 2 {
        enc2(data[0], data[1])
    } else {
        enc3(data[0], data[1], data[2]) + base64_bytes(data.skip(3))
    }
}

/// The text of the base64 encoding of `data`: its ASCII bytes read as
/// characters.
pub open spec fn base64_chars(data: Seq<u8>) -> Seq<char> {
    base64_bytes(data).map_values(|b: u8| b as char)
}

/// The encoding of `n` input bytes always holds `ceil(n/3) * 4` bytes.
pub proof fn lemma_base64_len(data: Seq<u8>)
    ensures
        base64_bytes(data).len() == ((data.len() + 2) / 3) * 4,
        base64_bytes(data).len() % 4 == 0,
    decreases data.len(),
{
    if data.len() >= 3 {
        lemma_base64_len(data.skip(3));
        assert((data.len() + 2) / 3 == 1 + (data.len() - 1) / 3) by (nonlinear_arith)
            requires
                data.len() >= 3,
        ;
    }
}

/// Every byte of an encoding is ASCII, and the padding byte `=` never
/// stands anywhere but in the trailing positions the remainder calls for:
/// with remainder 2 the last byte is the one padding byte.
pub proof fn lemma_base64_tail_two(data: Seq<u8>)
    requires
        data.len() % 3 == 2,
    ensures
        base64_bytes(data).len() >= 4,
        base64_bytes(data)[base64_bytes(data).len() - 1] == 61,
        base64_bytes(data)[base64_bytes(data).len() - 2] != 61,
    decreases data.len(),
{
    if data.len() == 2 {
        lemma_b64_code_not_pad((data[1] as int % 16) * 4);
    } else {
        lemma_base64_tail_two(data.skip(3));
    }
}

/// The alphabet byte for a 6-bit value.
fn b64_byte(v: u8) -> (r: u8)
    requires
        v < 64,
    ensures
        r == b64_code(v as int),
{
    if v < 26 {
        v + 65
    } else if v < 52 {
        v + 71
    } else if v < 62 {
        v - 4
    } else if v == 62 {
        43
    } else {
        47
    }
}

/// Relies on String::from_utf8: bytes below 0x80 are valid UTF-8 and decode
/// to the characters with the same code points, one byte each.
#[verifier::external_body]
fn ascii_to_string(bytes: Vec<u8>) -> (s: String)
    requires
        forall|i: int| 0 <= i < bytes@.len() ==> bytes@[i] < 128,
    ensures
        s@ == bytes@.map_values(|b: u8| b as char),
{
    match String::from_utf8(bytes) {
        Ok(s) => s,
        Err(_) => String::new(),
    }
}

/// Encodes a byte sequence as base64 text, RFC 4648 standard alphabet with
/// `=` padding, no line wrapping: a single pass over full 3-byte groups,
/// then the 1- or 2-byte remainder. Total; the empty input yields the
/// empty text.
pub fn encode_base64(data: &[u8]) -> (s: String)
    ensures
        s@ == base64_chars(data@),
        s@.len() == ((data@.len() + 2) / 3) * 4,
        s@.len() % 4 == 0,
{
    let len = data.len();
    let mod_len = len % 3;
    let full = len - mod_len;
    let mut out: Vec<u8> = Vec::new();
    let mut i: usize = 0;
    proof {
        assert(data@.skip(0) =~= data@);
        assert(out@ + base64_bytes(data@) =~= base64_bytes(data@));
    }
    while i < full
        invariant
            i % 3 == 0,
            i <= full,
            full == data@.len() - (data@.len() % 3),
            full <= data@.len(),
            base64_bytes(data@) == out@ + base64_bytes(data@.skip(i as int)),
            forall|k: int| 0 <= k < out@.len() ==> out@[k] < 128,
        decreases full - i,
    {
        let a = data[i];
        let b = data[i + 1];
        let c = data[i + 2];
        proof {
            assert(data@.skip(i as int).skip(3) =~= data@.skip(i as int + 3));
            lemma_b64_code_not_pad(a as int / 4);
            lemma_b64_code_not_pad((a as int % 4) * 16 + b as int / 16);
            lemma_b64_code_not_pad((b as int % 16) * 4 + c as int / 64);
            lemma_b64_code_not_pad(c as int % 64);
        }
        out.push(b64_byte(a / 4));
        out.push(b64_byte((a % 4) * 16 + b / 16));
        out.push(b64_byte((b % 16) * 4 + c / 64));
        out.push(b64_byte(c % 64));
        proof {
            assert(out@ =~= out@.subrange(0, out@.len() - 4) + enc3(a, b, c));
        }
        i += 3;
    }
    if mod_len == 1 {
        let a = data[len - 1];
        proof {
            assert(data@.skip(i as int) =~= seq![data@[len - 1]]);
            lemma_b64_code_not_pad(a as int / 4);
            lemma_b64_code_not_pad((a as int % 4) * 16);
        }
        out.push(b64_byte(a / 4));
        out.push(b64_byte((a % 4) * 16));
        out.push(61);
        out.push(61);
        proof {
            assert(out@ =~= out@.subrange(0, out@.len() - 4) + enc1(a));
        }
    } else if mod_len == 2 {
        let a = data[len - 2];
        let b = data[len - 1];
        proof {
            assert(data@.skip(i as int) =~= seq![data@[len - 2], data@[len - 1]]);
            lemma_b64_code_not_pad(a as int / 4);
            lemma_b64_code_not_pad((a as int % 4) * 16 + b as int / 16);
            lemma_b64_code_not_pad((b as int % 16) * 4);
        }
        out.push(b64_byte(a / 4));
        out.push(b64_byte((a % 4) * 16 + b / 16));
        out.push(b64_byte((b % 16) * 4));
        out.push(61);
        proof {
            assert(out@ =~= out@.subrange(0, out@.len() - 4) + enc2(a, b));
        }
    } else {
        proof {
            assert(data@.skip(i as int) =~= Seq::<u8>::empty());
            assert(out@ =~= out@ + base64_bytes(data@.skip(i as int)));
        }
    }
    proof {
        lemma_base64_len(data@);
    }
    ascii_to_string(out)
}

} // verus!
