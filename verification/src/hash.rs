//! The two hash constructions the OPRF uses: an HKDF-extract step, generic
//! over the digest, that turns the client input into hash-to-curve material,
//! and a fixed SHA-256 HKDF-extract step that produces the final output.

use sha2::Digest;
use vstd::prelude::*;

verus! {

/// The pseudorandom key that HKDF-extract over SHA-512 returns for a salt
/// and input keying material.  It is a pure function of its arguments; the
/// result is 64 bytes long.
pub uninterp spec fn hkdf_sha512_of(salt: Option<Seq<u8>>, ikm: Seq<u8>) -> Seq<u8>;

/// The pseudorandom key that unsalted HKDF-extract over SHA-256 returns for
/// an input keying material.  It is a pure function of its argument; the
/// result is 32 bytes long.
pub uninterp spec fn hkdf_sha256_of(ikm: Seq<u8>) -> Seq<u8>;

/// The SHA-512 digest of a byte string: a pure function of the input, 64
/// bytes long.
pub uninterp spec fn sha512_of(m: Seq<u8>) -> Seq<u8>;

/// The byte sequences held by an optional byte slice.
pub open spec fn opt_bytes_view(o: Option<&[u8]>) -> Option<Seq<u8>> {
    match o {
        Some(b) => Some(b@),
        None => None,
    }
}

/// Relies on `hkdf::Hkdf::<sha2::Sha512>::extract`: the RFC 5869
/// HKDF-Extract operation, a deterministic function of the salt and the
/// input keying material whose output is one SHA-512 block, 64 bytes.
#[verifier::external_body]
pub(crate) fn hkdf_extract_sha512(salt: Option<&[u8]>, ikm: &[u8]) -> (r: Vec<u8>)
    ensures
        r@ == hkdf_sha512_of(opt_bytes_view(salt), ikm@),
        r@.len() == 64,
{
    let (prk, _) = hkdf::Hkdf::<sha2::Sha512>::extract(salt, ikm);
    prk.to_vec()
}

/// Relies on `hkdf::Hkdf::<sha2::Sha256>::extract`: the RFC 5869
/// HKDF-Extract operation without a salt, a deterministic function of the
/// input keying material whose output is one SHA-256 block, 32 bytes.
#[verifier::external_body]
pub(crate) fn hkdf_extract_sha256(ikm: &[u8]) -> (r: Vec<u8>)
    ensures
        r@ == hkdf_sha256_of(ikm@),
        r@.len() == 32,
{
    let (prk, _) = hkdf::Hkdf::<sha2::Sha256>::extract(None, ikm);
    prk.to_vec()
}

/// Relies on `sha2::Sha512` through the `Digest` trait: the digest is a
/// deterministic function of the input bytes and is 64 bytes long.
#[verifier::external_body]
pub(crate) fn sha512(m: &[u8]) -> (r: Vec<u8>)
    ensures
        r@ == sha512_of(m@),
        r@.len() == 64,
{
    sha2::Sha512::digest(m).to_vec()
}

/// The digest choice for the HKDF-extract step of the blinding phase.
///
/// The blinding phase is generic over this trait so a protocol can pick the
/// hash that derives the hash-to-curve input; the finalize step instead uses
/// a fixed, unsalted SHA-256 instantiation.
pub trait HkdfDigest {
    /// The pseudorandom key that HKDF-extract over this digest returns.
    spec fn extract_spec(salt: Option<Seq<u8>>, ikm: Seq<u8>) -> Seq<u8>;

    /// HKDF-extract over this digest.
    fn extract(salt: Option<&[u8]>, ikm: &[u8]) -> (r: Vec<u8>)
        ensures
            r@ == Self::extract_spec(opt_bytes_view(salt), ikm@),
    ;
}

/// HKDF-extract instantiated with SHA-512, the usual choice for deriving
/// the 64 bytes of hash-to-curve input.
pub struct HkdfSha512;

impl HkdfDigest for HkdfSha512 {
    open spec fn extract_spec(salt: Option<Seq<u8>>, ikm: Seq<u8>) -> Seq<u8> {
        hkdf_sha512_of(salt, ikm)
    }

    fn extract(salt: Option<&[u8]>, ikm: &[u8]) -> (r: Vec<u8>) {
        hkdf_extract_sha512(salt, ikm)
    }
}

} // verus!
