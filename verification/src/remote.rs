//! The computable parts of the remote signing path.
//!
//! The remote key-management service holds the private key; the caller
//! never sees the key bytes.  The service signs a fixed-length SHA-256
//! digest of the message, never the raw message itself, and each request
//! carries a routing metadata value naming the key resource.  Both the
//! digest and that value are computed here; the network round trip itself
//! cannot live in this crate and stays with the caller that owns the
//! client connection.

use vstd::prelude::*;
use vstd::string::StringExecFns;
use crate::errors::CmsError;

verus! {

/// The 64 hexadecimal characters (as ASCII bytes) that the outside SHA-256
/// routine produces for the given input bytes.
pub uninterp spec fn sha256_hex_of(data: Seq<u8>) -> Seq<u8>;

/// Whether `b` is the ASCII code of a lowercase hexadecimal digit.
pub open spec fn is_hex_ascii(b: u8) -> bool {
    (48 <= b && b <= 57) || (97 <= b && b <= 102)
}

/// The numeric value of the hexadecimal digit with ASCII code `b`.
pub open spec fn hex_value(b: u8) -> u8
    recommends
        is_hex_ascii(b),
{
    if 48 <= b && b <= 57 {
        (b - 48) as u8
    } else {
        (b - 87) as u8
    }
}

/// The bytes denoted by a sequence of hexadecimal ASCII digits, two digits
/// per byte, most significant digit first.
pub open spec fn hex_decoded(s: Seq<u8>) -> Seq<u8> {
    Seq::new(s.len() / 2, |i: int| (hex_value(s[2 * i]) * 16 + hex_value(s[2 * i + 1])) as u8)
}

/// Relies on sha256::digest: the result is the SHA-256 digest of the input
/// as a string of exactly 64 lowercase hexadecimal characters, and depends
/// on the input bytes alone.
#[verifier::external_body]
fn sha256_hex(data: &Vec<u8>) -> (r: Vec<u8>)
    ensures
        r@ == sha256_hex_of(data@),
        r@.len() == 64,
        forall|i: int| 0 <= i < r@.len() ==> is_hex_ascii(#[trigger] r@[i]),
{
    sha256::digest(data.as_slice()).into_bytes()
}

/// Decode a sequence of hexadecimal ASCII digits into raw bytes.
fn decode_hex(s: &Vec<u8>) -> (r: Vec<u8>)
    requires
        s@.len() % 2 == 0,
        forall|i: int| 0 <= i < s@.len() ==> is_hex_ascii(#[trigger] s@[i]),
    ensures
        r@ == hex_decoded(s@),
{
    let mut out: Vec<u8> = Vec::new();
    let mut i: usize = 0;
    while i + 1 < s.len()
        invariant
            s@.len() % 2 == 0,
            forall|k: int| 0 <= k < s@.len() ==> is_hex_ascii(#[trigger] s@[k]),
            i % 2 == 0,
            i <= s@.len(),
            out@ == hex_decoded(s@.take(i as int)),
        decreases s@.len() - i,
    {
        let hi = hex_digit_value(s[i]);
        let lo = hex_digit_value(s[i + 1]);
        out.push(hi * 16 + lo);
        i += 2;
        proof {
            assert(out@ =~= hex_decoded(s@.take(i as int)));
        }
    }
    proof {
        assert(s@.take(s@.len() as int) == s@);
    }
    out
}

/// The numeric value of one hexadecimal ASCII digit.
fn hex_digit_value(b: u8) -> (r: u8)
    requires
        is_hex_ascii(b),
    ensures
        r == hex_value(b),
        r < 16,
{
    if b >= 97 {
        b - 87
    } else {
        b - 48
    }
}

/// Compute the SHA-256 digest of `content` as 32 raw bytes.
///
/// This is the digest the remote signing path submits in place of the raw
/// message.  Decoding the outside routine's hexadecimal text never fails,
/// so the result is always `Ok`; `DigestError` remains in the taxonomy for
/// callers but is never produced here.
pub fn content_digest(content: &Vec<u8>) -> (r: Result<Vec<u8>, CmsError>)
    ensures
        r is Ok,
        r->Ok_0@ == hex_decoded(sha256_hex_of(content@)),
        r->Ok_0@.len() == 32,
{
    let hex = sha256_hex(content);
    let bytes = decode_hex(&hex);
    Ok(bytes)
}

/// The routing metadata value that accompanies a remote sign request: the
/// key-resource identifier prefixed with `name=`.  The remote service uses
/// it to route and authorize the request.
pub fn key_request_params(key_path: &String) -> (r: String)
    ensures
        r@ == "name="@ + key_path@,
{
    let prefix = String::from_str("name=");
    prefix.concat(key_path.as_str())
}

/// The inputs of one remote-key signing request.
#[derive(Default)]
pub struct SignWithGCloudOptions {
    /// The content to sign.
    pub content: Vec<u8>,
    /// The certificate chain, PEM text, leaf first.
    pub cert: Vec<u8>,
    /// The fully qualified resource identifier of the key version held by
    /// the remote service.
    pub key_path: String,
    /// The signing time, RFC 3339 text; defaults to the wall clock.
    pub signing_time: Option<String>,
    /// The timestamp-authority address, if a trusted timestamp is wanted.
    pub timestamp_server: Option<String>,
}

} // verus!
