//! The ristretto255 prime-order group, seen through its wire encodings.
//!
//! Group elements and scalars live in this module as their canonical
//! 32-byte encodings.  A scalar's mathematical value is the little-endian
//! integer of its bytes; a canonical scalar encoding is one whose value is
//! below the group order.  What only the curve arithmetic can compute
//! (hash-to-curve, scalar multiplication, inversion, reduction) is reached
//! through trusted wrappers around `curve25519_dalek`; everything around
//! those calls is verified.

use crate::errors::InternalPakeError;
use curve25519_dalek::ristretto::{CompressedRistretto, RistrettoPoint};
use curve25519_dalek::scalar::Scalar;
use vstd::arithmetic::div_mod::{lemma_mul_mod_noop_left, lemma_mul_mod_noop_right, lemma_small_mod};
use vstd::prelude::*;

verus! {

/// The order of the ristretto255 group: a prime, usually written as
/// 2^252 + 27742317777372353535851937790883648493.
pub open spec fn group_order() -> nat {
    7237005577332262213973186563042994240857116359379907606001950938285454250989nat
}

/// The little-endian integer value of a byte string.
pub open spec fn le_val(b: Seq<u8>) -> nat
    decreases b.len(),
{
    if b.len() == 0 {
        0
    } else {
        (b[0] as nat) + 256 * le_val(b.subrange(1, b.len() as int))
    }
}

/// Whether a byte string is the canonical encoding of a group element:
/// exactly these decode under `CompressedRistretto::decompress`, and
/// `RistrettoPoint::compress` returns only such encodings.
pub uninterp spec fn elem_valid(e: Seq<u8>) -> bool;

/// The canonical encoding of the `k`-fold multiple of the group element
/// decoded from `e` — for `k` below the group order, the product with the
/// scalar of value `k`; unspecified when `e` is not a valid encoding.
pub uninterp spec fn elem_scalar_mul(e: Seq<u8>, k: nat) -> Seq<u8>;

/// The canonical encoding of the group element that
/// `RistrettoPoint::from_uniform_bytes` maps 64 bytes to.
pub uninterp spec fn elem_from_uniform(uniform: Seq<u8>) -> Seq<u8>;

/// The group element that stands for a string of hash-to-curve material:
/// the 64 bytes are hashed once more with SHA-512 and the digest is mapped
/// into the group.
pub open spec fn base_point_of(uniform: Seq<u8>) -> Seq<u8> {
    elem_from_uniform(crate::hash::sha512_of(uniform))
}

/// Whether `v` is the multiplicative inverse of `a` modulo the group order.
pub open spec fn is_inverse_mod_l(a: nat, v: nat) -> bool {
    v < group_order() && (a * v) % group_order() == 1
}

/// The multiplicative inverse of `a` modulo the group order (meaningful
/// only when `a` is invertible, and then unique).
pub open spec fn inv_mod_l(a: nat) -> nat {
    choose|v: nat| is_inverse_mod_l(a, v)
}

/// A little-endian value is zero exactly when every byte is zero.
pub proof fn lemma_le_val_zero(b: Seq<u8>)
    ensures
        le_val(b) == 0 <==> (forall|i: int| 0 <= i < b.len() ==> b[i] == 0),
    decreases b.len(),
{
    if b.len() > 0 {
        let tail = b.subrange(1, b.len() as int);
        lemma_le_val_zero(tail);
        assert(forall|i: int| 0 <= i < tail.len() ==> tail[i] == b[i + 1]);
        if le_val(b) == 0 {
            assert forall|i: int| 0 <= i < b.len() implies b[i] == 0 by {
                if i > 0 {
                    assert(tail[i - 1] == 0);
                }
            }
        }
        if forall|i: int| 0 <= i < b.len() ==> b[i] == 0 {
            assert(forall|i: int| 0 <= i < tail.len() ==> tail[i] == 0);
            assert(le_val(tail) == 0);
            assert(le_val(b) == 0);
        }
    }
}

/// An invertible residue has exactly one inverse modulo the group order.
pub proof fn lemma_mod_inverse_unique(a: nat, v1: nat, v2: nat)
    requires
        is_inverse_mod_l(a, v1),
        is_inverse_mod_l(a, v2),
    ensures
        v1 == v2,
{
    let l = group_order() as int;
    let x = v1 as int;
    let y = v2 as int;
    let ai = a as int;
    lemma_mul_mod_noop_right(x, ai * y, l);
    lemma_mul_mod_noop_right(y, ai * x, l);
    assert(x * (ai * y) == y * (ai * x)) by (nonlinear_arith);
    lemma_small_mod(v1, group_order());
    lemma_small_mod(v2, group_order());
}

/// Unblinding undoes blinding in the exponent: multiplying a blinded
/// exponent by the blinding factor's inverse gives back the bare exponent.
pub proof fn lemma_unblind_exponent(rv: nat, iv: nat, kv: nat)
    requires
        (rv * iv) % group_order() == 1,
        kv < group_order(),
    ensures
        (((rv * kv) % group_order()) * iv) % group_order() == kv,
{
    let l = group_order() as int;
    let r = rv as int;
    let v = iv as int;
    let k = kv as int;
    lemma_mul_mod_noop_left(r * k, v, l);
    assert((r * k) * v == k * (r * v)) by (nonlinear_arith);
    lemma_mul_mod_noop_right(k, r * v, l);
    lemma_small_mod(kv, group_order());
}

/// Relies on `RistrettoPoint::from_uniform_bytes`: it maps 64 bytes to a
/// group element deterministically (the Ristretto one-way map), and
/// `compress` returns the element's canonical encoding, which decompresses
/// again.
#[verifier::external_body]
pub(crate) fn ristretto_from_uniform(uniform: &Vec<u8>) -> (r: Vec<u8>)
    requires
        uniform@.len() == 64,
    ensures
        r@ == elem_from_uniform(uniform@),
        r@.len() == 32,
        elem_valid(r@),
{
    let mut bytes = [0u8; 64];
    bytes.copy_from_slice(uniform);
    RistrettoPoint::from_uniform_bytes(&bytes).compress().to_bytes().to_vec()
}

/// Relies on `CompressedRistretto::decompress`, scalar multiplication of
/// `RistrettoPoint`, and `RistrettoPoint::compress`: decompression succeeds
/// exactly on canonical encodings; ristretto255 is a group of prime order
/// \(\ell\), so multiplying a decoded element by scalars composes as
/// multiplication of the exponents modulo \(\ell\); compression returns the
/// canonical encoding of the product.  `Scalar::from_canonical_bytes`
/// accepts the scalar since its value is below the order.
#[verifier::external_body]
pub(crate) fn ristretto_mul(point: &Vec<u8>, scalar: &Vec<u8>) -> (r: Option<Vec<u8>>)
    requires
        point@.len() == 32,
        scalar@.len() == 32,
        le_val(scalar@) < group_order(),
    ensures
        r is Some <==> elem_valid(point@),
        r is Some ==> r->0@.len() == 32,
        r is Some ==> elem_valid(r->0@),
        r is Some ==> r->0@ == elem_scalar_mul(point@, le_val(scalar@)),
        r is Some ==> forall|h: Seq<u8>, a: nat|
            elem_valid(h) && point@ == #[trigger] elem_scalar_mul(h, a)
                ==> r->0@ == elem_scalar_mul(h, (a * le_val(scalar@)) % group_order()),
{
    let mut sb = [0u8; 32];
    sb.copy_from_slice(scalar);
    let s: Scalar = Option::from(Scalar::from_canonical_bytes(sb)).unwrap();
    let compressed = match CompressedRistretto::from_slice(point) {
        Ok(c) => c,
        Err(_) => return None,
    };
    match compressed.decompress() {
        Some(p) => Some((p * s).compress().to_bytes().to_vec()),
        None => None,
    }
}

/// Relies on `Scalar::from_bytes_mod_order`: the 256-bit little-endian
/// integer is reduced modulo the group order, and `to_bytes` returns the
/// canonical little-endian encoding of the result.
#[verifier::external_body]
fn reduce_scalar_32(bytes: &Vec<u8>) -> (r: Vec<u8>)
    requires
        bytes@.len() == 32,
    ensures
        r@.len() == 32,
        le_val(r@) == le_val(bytes@) % group_order(),
{
    let mut buf = [0u8; 32];
    buf.copy_from_slice(bytes);
    Scalar::from_bytes_mod_order(buf).to_bytes().to_vec()
}

/// Relies on `Scalar::from_bytes_mod_order_wide`: the 512-bit little-endian
/// integer is reduced modulo the group order, and `to_bytes` returns the
/// canonical little-endian encoding of the result.
#[verifier::external_body]
fn reduce_scalar_wide(bytes: &Vec<u8>) -> (r: Vec<u8>)
    requires
        bytes@.len() == 64,
    ensures
        r@.len() == 32,
        le_val(r@) == le_val(bytes@) % group_order(),
{
    let mut buf = [0u8; 64];
    buf.copy_from_slice(bytes);
    Scalar::from_bytes_mod_order_wide(&buf).to_bytes().to_vec()
}

/// Relies on `Scalar::invert`: for a nonzero canonical scalar it returns
/// the multiplicative inverse modulo the group order, canonically encoded.
/// `Scalar::from_canonical_bytes` accepts the input since its value is
/// below the order.
#[verifier::external_body]
pub(crate) fn scalar_invert_bytes(s: &Vec<u8>) -> (r: Vec<u8>)
    requires
        s@.len() == 32,
        0 < le_val(s@) < group_order(),
    ensures
        r@.len() == 32,
        le_val(r@) < group_order(),
        (le_val(s@) * le_val(r@)) % group_order() == 1,
{
    let mut buf = [0u8; 32];
    buf.copy_from_slice(s);
    let s: Scalar = Option::from(Scalar::from_canonical_bytes(buf)).unwrap();
    s.invert().to_bytes().to_vec()
}

/// Relies on `rand_core::OsRng::try_fill_bytes`: on success the buffer
/// holds 64 bytes from the operating system's random source; nothing is
/// assumed about their value.
#[verifier::external_body]
fn random_bytes_wide() -> (r: Option<Vec<u8>>)
    ensures
        r is Some ==> r->0@.len() == 64,
{
    let mut buf = [0u8; 64];
    match rand_core::RngCore::try_fill_bytes(&mut rand_core::OsRng, &mut buf) {
        Ok(()) => Some(buf.to_vec()),
        Err(_) => None,
    }
}

/// Maps arbitrary hash-to-curve material into the group: one extra SHA-512
/// digest, then the Ristretto one-way map.  Deterministic in its input.
pub fn hash_to_curve(uniform_input: &[u8]) -> (r: Vec<u8>)
    ensures
        r@ == base_point_of(uniform_input@),
        r@.len() == 32,
        elem_valid(r@),
{
    let digest = crate::hash::sha512(uniform_input);
    ristretto_from_uniform(&digest)
}

/// Decodes 32 bytes into a canonical scalar by reducing their little-endian
/// value modulo the group order.
pub fn scalar_from_bytes_mod_order(bytes: &Vec<u8>) -> (r: Vec<u8>)
    requires
        bytes@.len() == 32,
    ensures
        r@.len() == 32,
        le_val(r@) == le_val(bytes@) % group_order(),
        le_val(r@) < group_order(),
{
    reduce_scalar_32(bytes)
}

/// Whether a scalar encoding holds the value zero, the one residue that has
/// no multiplicative inverse.
pub fn scalar_is_zero(bytes: &Vec<u8>) -> (r: bool)
    ensures
        r <==> le_val(bytes@) == 0,
{
    let n = bytes.len();
    let mut i: usize = 0;
    while i < n
        invariant
            0 <= i <= n,
            n == bytes@.len(),
            forall|j: int| 0 <= j < i ==> bytes@[j] == 0,
        decreases n - i,
    {
        if bytes[i] != 0 {
            proof {
                lemma_le_val_zero(bytes@);
            }
            return false;
        }
        i = i + 1;
    }
    proof {
        lemma_le_val_zero(bytes@);
    }
    true
}

/// Samples a uniformly random nonzero scalar: 64 bytes of system
/// randomness are reduced modulo the group order, and a zero residue is
/// rejected and redrawn.  A failing random source is fatal and reported,
/// never retried past a small bound.
pub fn random_nonzero_scalar() -> (r: Result<Vec<u8>, InternalPakeError>)
    ensures
        r matches Ok(s) ==> s@.len() == 32 && 0 < le_val(s@) < group_order(),
        r matches Err(e) ==> e == InternalPakeError::RandomnessFailure,
{
    let mut attempts: usize = 0;
    while attempts < 8
        invariant
            attempts <= 8,
        decreases 8 - attempts,
    {
        let wide = match random_bytes_wide() {
            Some(w) => w,
            None => {
                return Err(InternalPakeError::RandomnessFailure);
            },
        };
        let reduced = reduce_scalar_wide(&wide);
        if !scalar_is_zero(&reduced) {
            return Ok(reduced);
        }
        attempts = attempts + 1;
    }
    Err(InternalPakeError::RandomnessFailure)
}

} // verus!
