//! The static authorization header carried by the WebSocket
//! handshake: `Basic ` followed by the base64 encoding of
//! `username:password`.

use vstd::prelude::*;
use crate::text::append_bytes;

verus! {

/// Standard-alphabet, padded base64 encoding of a byte string.
pub uninterp spec fn base64_standard(bytes: Seq<u8>) -> Seq<u8>;

/// Relies on base64's `STANDARD` engine `encode`: the encoding
/// depends on the input bytes alone, and emits four bytes for every
/// started group of three input bytes, padded.
#[verifier::external_body]
fn base64_encode(bytes: &Vec<u8>) -> (r: Vec<u8>)
    ensures
        r@ == base64_standard(bytes@),
        r@.len() == 4 * ((bytes@.len() + 2) / 3),
{
    base64::engine::Engine::encode(&base64::engine::general_purpose::STANDARD, bytes.as_slice())
        .into_bytes()
}

/// The bytes of `Basic ` (with its trailing space).
pub open spec fn basic_prefix() -> Seq<u8> {
    seq![66u8, 97u8, 115u8, 105u8, 99u8, 32u8]
}

/// The bytes of `username:password`.
pub open spec fn credential_bytes(username: Seq<u8>, password: Seq<u8>) -> Seq<u8> {
    username + seq![58u8] + password
}

/// Builds the authorization header value `Basic ` + base64 of
/// `username:password`.
pub fn basic_auth_header_value(username: &Vec<u8>, password: &Vec<u8>) -> (r: Vec<u8>)
    ensures
        r@ == basic_prefix() + base64_standard(credential_bytes(username@, password@)),
{
    let mut credentials: Vec<u8> = Vec::new();
    append_bytes(&mut credentials, username);
    credentials.push(58);
    append_bytes(&mut credentials, password);
    proof {
        assert(credentials@ =~= credential_bytes(username@, password@));
    }
    let encoded = base64_encode(&credentials);
    let mut r: Vec<u8> = Vec::new();
    r.push(66);
    r.push(97);
    r.push(115);
    r.push(105);
    r.push(99);
    r.push(32);
    proof {
        assert(r@ =~= basic_prefix());
    }
    append_bytes(&mut r, &encoded);
    r
}

} // verus!
