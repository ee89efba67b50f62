//! The JWKS view of the public key.
//!
//! The well-known endpoint exposes the RSA public key's modulus and
//! exponent, base64url-encoded without padding, in a one-key JWK set.

use base64::Engine;
use vstd::prelude::*;

verus! {

/// What base64's `URL_SAFE_NO_PAD` engine returns for a byte sequence.
pub uninterp spec fn b64url_of(bytes: Seq<u8>) -> Seq<char>;

/// Relies on base64's `URL_SAFE_NO_PAD` engine: the unpadded base64url
/// text of the bytes, four characters per three bytes with a two- or
/// three-character final group.
#[verifier::external_body]
fn b64url_encode(bytes: &Vec<u8>) -> (r: String)
    ensures
        r@ == b64url_of(bytes@),
        r@.len() == (bytes@.len() * 4 + 2) / 3,
{
    base64::engine::general_purpose::URL_SAFE_NO_PAD.encode(bytes)
}

/// The JWKS document text for a public key given by its big-endian
/// modulus and exponent bytes.  The base64url alphabet never needs JSON
/// escaping, so the encoded values are inserted verbatim.
pub open spec fn spec_jwks_document(n: Seq<u8>, e: Seq<u8>) -> Seq<char> {
    "{\"keys\":[{\"kty\":\"RSA\",\"use\":\"sig\",\"alg\":\"RS256\",\"n\":\""@ + b64url_of(n)
        + "\",\"e\":\""@ + b64url_of(e) + "\"}]}"@
}

/// Builds the JWKS document for the given modulus and exponent bytes.
pub fn jwks_document(n: &Vec<u8>, e: &Vec<u8>) -> (r: String)
    ensures
        r@ == spec_jwks_document(n@, e@),
{
    let mut out = String::from_str(
        "{\"keys\":[{\"kty\":\"RSA\",\"use\":\"sig\",\"alg\":\"RS256\",\"n\":\"",
    );
    let n_b64 = b64url_encode(n);
    out.append(n_b64.as_str());
    out.append("\",\"e\":\"");
    let e_b64 = b64url_encode(e);
    out.append(e_b64.as_str());
    out.append("\"}]}");
    proof {
        assert(out@ =~= spec_jwks_document(n@, e@));
    }
    out
}

} // verus!
