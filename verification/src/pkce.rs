//! Derivation of the PKCE code challenge for OAuth authorization-code flows:
//! SHA-256 over the UTF-8 bytes of the verifier, base64url-encoded with no
//! padding. Pure and deterministic; the verifier itself is generated and
//! persisted by the caller.

use vstd::prelude::*;
use vstd::string::StringSliceAdditionalSpecFns;

use base64::Engine;
use sha2::Digest;

verus! {

/// The SHA-256 digest of a byte sequence, as computed by the `sha2` crate.
pub uninterp spec fn sha256_of(data: Seq<u8>) -> Seq<u8>;

/// The base64url encoding, without padding, of a byte sequence, as computed
/// by the `base64` crate's `URL_SAFE_NO_PAD` engine.
pub uninterp spec fn base64url_nopad_of(data: Seq<u8>) -> Seq<char>;

/// A character of the URL-safe base64 alphabet (RFC 4648 section 5):
/// letters, digits, `-` and `_` — in particular never `=`, `+` or `/`.
pub open spec fn base64url_char(c: char) -> bool {
    ('A' <= c && c <= 'Z') || ('a' <= c && c <= 'z') || ('0' <= c && c <= '9') || c == '-' || c
        == '_'
}

/// Relies on sha2::Sha256 (through the `Digest` interface): the digest is 32
/// bytes and a function of the input bytes alone.
#[verifier::external_body]
fn sha256_digest(data: &[u8]) -> (r: Vec<u8>)
    ensures
        r@ == sha256_of(data@),
        r@.len() == 32,
{
    let mut sha = sha2::Sha256::new();
    sha.update(data);
    sha.finalize().to_vec()
}

/// Relies on base64's `URL_SAFE_NO_PAD` engine: the encoding is a function
/// of the input bytes alone, uses only the URL-safe alphabet of RFC 4648
/// section 5, and appends no padding. The length bound keeps the engine's
/// internal output-size computation from overflowing, on which it panics.
#[verifier::external_body]
fn base64url_nopad_encode(data: &[u8]) -> (r: String)
    requires
        data@.len() <= usize::MAX / 4,
    ensures
        r@ == base64url_nopad_of(data@),
        forall|i: int| 0 <= i < r@.len() ==> base64url_char(r@[i]),
        data@.len() == 0 ==> r@.len() == 0,
{
    base64::engine::general_purpose::URL_SAFE_NO_PAD.encode(data)
}

/// The challenge derived from the UTF-8 bytes of a verifier.
pub open spec fn pkce_challenge_of(verifier_bytes: Seq<u8>) -> Seq<char> {
    base64url_nopad_of(sha256_of(verifier_bytes))
}

/// Derives the PKCE code challenge from a verifier:
/// base64url-no-pad(SHA-256(verifier)). Every character of the result lies
/// in the URL-safe alphabet, so the challenge never contains `=`, `+` or
/// `/`.
pub fn derive_pkce_code_challenge(pkce_code_verifier: &str) -> (r: String)
    ensures
        r@ == pkce_challenge_of(pkce_code_verifier.spec_bytes()),
        forall|i: int| 0 <= i < r@.len() ==> base64url_char(r@[i]),
{
    let digest = sha256_digest(pkce_code_verifier.as_bytes());
    base64url_nopad_encode(digest.as_slice())
}

/// Law: the challenge is a pure function of the verifier bytes — equal
/// verifiers always yield equal challenges, across any number of calls.
pub proof fn lemma_challenge_deterministic(v1: Seq<u8>, v2: Seq<u8>)
    requires
        v1 == v2,
    ensures
        pkce_challenge_of(v1) == pkce_challenge_of(v2),
{
}

} // verus!
