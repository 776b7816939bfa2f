//! The opening-handshake accept-key derivation: SHA-1 over the client key
//! followed by the protocol's fixed GUID constant, then base64.

use vstd::prelude::*;
use vstd::string::StringSliceAdditionalSpecFns;
use crate::base64::{base64_chars, encode_base64, lemma_base64_len, lemma_base64_tail_two};

verus! {

/// The 20-byte digest that SHA-1 assigns to a byte sequence. The digest is
/// a function of the input bytes alone; its value is not modelled here.
pub uninterp spec fn sha1_of(data: Seq<u8>) -> Seq<u8>;

/// Relies on sha1::Sha1 through digest::Digest::digest: SHA-1 is
/// deterministic in the input bytes and its output is always 20 bytes.
#[verifier::external_body]
fn sha1_digest(data: &[u8]) -> (r: Vec<u8>)
    ensures
        r@ == sha1_of(data@),
        r@.len() == 20,
{
    let out = <sha1::Sha1 as sha1::Digest>::digest(data);
    out.as_slice().to_vec()
}

/// The ASCII bytes of the fixed GUID constant the protocol appends to the
/// client key before hashing.
pub open spec fn ws_guid_bytes() -> Seq<u8> {
    "258EAFA5-E914-47DA-95CA-C5AB0DC85B11".spec_bytes()
}

/// The bytes the digest is applied to: the client key followed by the GUID
/// constant, in that order.
pub open spec fn accept_input(key: Seq<u8>) -> Seq<u8> {
    key + ws_guid_bytes()
}

/// Derives the Sec-WebSocket-Accept header value for a client handshake
/// key: base64 of the SHA-1 digest of the key followed by the protocol's
/// GUID constant. Total over all key bytes; the result always holds 28
/// characters and ends in exactly one `=`, since the digest's 20 bytes
/// leave a 2-byte remainder.
pub fn derive_accept_key(key: &[u8]) -> (s: String)
    ensures
        s@ == base64_chars(sha1_of(accept_input(key@))),
        s@.len() == 28,
        s@[27] == '=',
        s@[26] != '=',
{
    let mut input: Vec<u8> = vstd::slice::slice_to_vec(key);
    let mut guid: Vec<u8> = vstd::slice::slice_to_vec(
        "258EAFA5-E914-47DA-95CA-C5AB0DC85B11".as_bytes(),
    );
    input.append(&mut guid);
    let digest = sha1_digest(input.as_slice());
    let s = encode_base64(digest.as_slice());
    proof {
        lemma_base64_len(digest@);
        lemma_base64_tail_two(digest@);
    }
    s
}

} // verus!
