//! The three steps of the multiplicative-blinding DH-OPRF.
//!
//! The client blinds its input (`generate_oprf1`), the server evaluates the
//! blinded element under its key (`generate_oprf2`), and the client
//! unblinds the answer and hashes it down to the 32-byte output
//! (`generate_oprf3`).  The round-trip identity — the output equals the PRF
//! of the key and the input, whatever the blinding factor was — is stated
//! in the contracts of the three steps and carried by the group law of the
//! scalar-multiplication wrapper.

use crate::errors::InternalPakeError;
use crate::group::{
    base_point_of, elem_scalar_mul, elem_valid, group_order, hash_to_curve, inv_mod_l,
    is_inverse_mod_l, le_val, lemma_mod_inverse_unique, lemma_unblind_exponent, ristretto_mul,
    random_nonzero_scalar, scalar_from_bytes_mod_order, scalar_invert_bytes, scalar_is_zero,
};
use crate::hash::{hkdf_extract_sha256, hkdf_sha256_of, opt_bytes_view, HkdfDigest};
use vstd::arithmetic::div_mod::lemma_small_mod;
use vstd::prelude::*;

verus! {

/// The ephemeral client state between blinding and finalization: the
/// blinded element that crosses the wire, and the blinding factor that must
/// stay on the client and be used exactly once.
pub struct OprfClientBytes {
    /// The blinded group element, canonically encoded; sent to the server.
    pub alpha: Vec<u8>,
    /// The blinding factor, a canonical nonzero scalar encoding; never
    /// transmitted.
    pub blinding_factor: Vec<u8>,
}

/// The group element that stands for an input after the HKDF-extract and
/// hash-to-curve steps of the blinding phase.
pub open spec fn blind_base_point<D: HkdfDigest>(input: Seq<u8>, pepper: Option<Seq<u8>>) -> Seq<u8> {
    base_point_of(D::extract_spec(pepper, input))
}

/// The PRF value a client obtains for `input` when the server's key has
/// value `key`: the finalize hash over the canonical encoding of the base
/// point raised to the key, followed by the raw input bytes.  No blinding
/// factor appears here; that it does not is the point of the protocol.
pub open spec fn prf_output(base_point: Seq<u8>, key: nat, input: Seq<u8>) -> Seq<u8> {
    hkdf_sha256_of(elem_scalar_mul(base_point, key) + input)
}

/// The canonical concatenation of an owned byte vector and a byte slice.
fn concat_bytes(a: &Vec<u8>, b: &[u8]) -> (r: Vec<u8>)
    ensures
        r@ == a@ + b@,
{
    let mut r: Vec<u8> = Vec::new();
    let mut i: usize = 0;
    while i < a.len()
        invariant
            0 <= i <= a@.len(),
            r@ == a@.subrange(0, i as int),
        decreases a@.len() - i,
    {
        r.push(a[i]);
        proof {
            assert(r@ =~= a@.subrange(0, i as int + 1));
        }
        i = i + 1;
    }
    let mut j: usize = 0;
    while j < b.len()
        invariant
            0 <= j <= b@.len(),
            r@ == a@ + b@.subrange(0, j as int),
        decreases b@.len() - j,
    {
        r.push(b[j]);
        proof {
            assert(r@ =~= a@ + b@.subrange(0, j as int + 1));
        }
        j = j + 1;
    }
    proof {
        assert(r@ =~= a@ + b@);
    }
    r
}

/// The first, client-side step of the OPRF, deblinded from its randomness:
/// blinds `input` (mixed with the optional `pepper` through HKDF-extract)
/// under a caller-supplied blinding factor.  The factor's little-endian
/// value is reduced modulo the group order; a non-invertible (zero) residue
/// is rejected, since finalization could never undo it.
pub fn generate_oprf1_with_factor<D: HkdfDigest>(
    input: &[u8],
    pepper: Option<&[u8]>,
    blinding_factor_bytes: &Vec<u8>,
) -> (r: Result<OprfClientBytes, InternalPakeError>)
    requires
        blinding_factor_bytes@.len() == 32,
    ensures
        r is Ok <==> le_val(blinding_factor_bytes@) % group_order() != 0,
        r matches Err(e) ==> e == InternalPakeError::InvalidScalarError,
        r matches Ok(state) ==> {
            &&& state.blinding_factor@.len() == 32
            &&& le_val(state.blinding_factor@) == le_val(blinding_factor_bytes@) % group_order()
            &&& state.alpha@.len() == 32
            &&& elem_valid(state.alpha@)
            &&& elem_valid(blind_base_point::<D>(input@, opt_bytes_view(pepper)))
            &&& state.alpha@ == elem_scalar_mul(
                blind_base_point::<D>(input@, opt_bytes_view(pepper)),
                le_val(state.blinding_factor@),
            )
        },
{
    let blinding_factor = scalar_from_bytes_mod_order(blinding_factor_bytes);
    if scalar_is_zero(&blinding_factor) {
        return Err(InternalPakeError::InvalidScalarError);
    }
    let hashed_input = D::extract(pepper, input);
    let base_point = hash_to_curve(hashed_input.as_slice());
    match ristretto_mul(&base_point, &blinding_factor) {
        Some(alpha) => Ok(OprfClientBytes { alpha, blinding_factor }),
        None => unreached(),
    }
}

/// The first, client-side step of the OPRF: mixes `input` with the optional
/// `pepper` through HKDF-extract, hashes the result into the group, samples
/// a fresh nonzero blinding factor from the system's random source, and
/// blinds the hashed point with it.  `alpha` is safe to reveal; the
/// blinding factor must stay on the client.  Fails only if the random
/// source does.
pub fn generate_oprf1<D: HkdfDigest>(input: &[u8], pepper: Option<&[u8]>) -> (r: Result<
    OprfClientBytes,
    InternalPakeError,
>)
    ensures
        r matches Err(e) ==> e == InternalPakeError::RandomnessFailure,
        r matches Ok(state) ==> {
            &&& state.blinding_factor@.len() == 32
            &&& 0 < le_val(state.blinding_factor@) < group_order()
            &&& state.alpha@.len() == 32
            &&& elem_valid(state.alpha@)
            &&& elem_valid(blind_base_point::<D>(input@, opt_bytes_view(pepper)))
            &&& state.alpha@ == elem_scalar_mul(
                blind_base_point::<D>(input@, opt_bytes_view(pepper)),
                le_val(state.blinding_factor@),
            )
        },
{
    let blinding_factor = match random_nonzero_scalar() {
        Ok(s) => s,
        Err(e) => {
            return Err(e);
        },
    };
    proof {
        lemma_small_mod(le_val(blinding_factor@), group_order());
    }
    match generate_oprf1_with_factor::<D>(input, pepper, &blinding_factor) {
        Ok(state) => Ok(state),
        Err(_) => unreached(),
    }
}

/// The second, server-side step of the OPRF: decodes the blinded element
/// received over the wire and multiplies it by the server's key scalar.  A
/// byte string that does not decode to a group element is rejected, never
/// computed on.  When the input is a blinded element, the result is the
/// base point raised to the product of the exponents — the fact the
/// client's unblinding step builds on.
pub fn generate_oprf2(point: &Vec<u8>, oprf_key: &Vec<u8>) -> (r: Result<
    Vec<u8>,
    InternalPakeError,
>)
    requires
        oprf_key@.len() == 32,
        le_val(oprf_key@) < group_order(),
    ensures
        r is Ok <==> point@.len() == 32 && elem_valid(point@),
        r matches Err(e) ==> e == InternalPakeError::InvalidPointError,
        r matches Ok(beta) ==> {
            &&& beta@.len() == 32
            &&& elem_valid(beta@)
            &&& beta@ == elem_scalar_mul(point@, le_val(oprf_key@))
            &&& forall|h: Seq<u8>, a: nat|
                elem_valid(h) && point@ == #[trigger] elem_scalar_mul(h, a)
                    ==> beta@ == elem_scalar_mul(h, (a * le_val(oprf_key@)) % group_order())
        },
{
    if point.len() != 32 {
        return Err(InternalPakeError::InvalidPointError);
    }
    match ristretto_mul(point, oprf_key) {
        Some(beta) => Ok(beta),
        None => Err(InternalPakeError::InvalidPointError),
    }
}

/// The third, client-side step of the OPRF: inverts the blinding factor,
/// unblinds the server's answer with it, and hashes the unblinded element
/// together with the original input down to the 32-byte output.
///
/// The last `ensures` clause is the round-trip identity: whenever `point`
/// is a base point `h` raised to `(r * k) mod l` — what the server returns
/// for a blinding of `h` by this factor under a key of value `k` — the
/// output is `prf_output(h, k, input)`, in which the blinding factor does
/// not occur.  Different valid factors therefore give byte-identical
/// outputs.
pub fn generate_oprf3(input: &[u8], point: &Vec<u8>, blinding_factor: &Vec<u8>) -> (r: Result<
    Vec<u8>,
    InternalPakeError,
>)
    requires
        blinding_factor@.len() == 32,
        le_val(blinding_factor@) < group_order(),
    ensures
        r is Ok <==> le_val(blinding_factor@) != 0 && point@.len() == 32 && elem_valid(point@),
        le_val(blinding_factor@) == 0 ==> (r matches Err(e) && e
            == InternalPakeError::InvalidScalarError),
        r is Err && le_val(blinding_factor@) != 0 ==> (r matches Err(e) && e
            == InternalPakeError::InvalidPointError),
        r matches Ok(output) ==> {
            &&& output@.len() == 32
            &&& output@ == hkdf_sha256_of(
                elem_scalar_mul(point@, inv_mod_l(le_val(blinding_factor@))) + input@,
            )
            &&& forall|h: Seq<u8>, k: nat|
                elem_valid(h) && k < group_order() && point@ == elem_scalar_mul(
                    h,
                    (le_val(blinding_factor@) * k) % group_order(),
                ) ==> output@ == #[trigger] prf_output(h, k, input@)
        },
{
    if scalar_is_zero(blinding_factor) {
        return Err(InternalPakeError::InvalidScalarError);
    }
    if point.len() != 32 {
        return Err(InternalPakeError::InvalidPointError);
    }
    let inverse = scalar_invert_bytes(blinding_factor);
    proof {
        let rv = le_val(blinding_factor@);
        let iv = le_val(inverse@);
        assert(is_inverse_mod_l(rv, iv));
        assert(is_inverse_mod_l(rv, inv_mod_l(rv)));
        lemma_mod_inverse_unique(rv, inv_mod_l(rv), iv);
    }
    let unblinded = match ristretto_mul(point, &inverse) {
        Some(u) => u,
        None => {
            return Err(InternalPakeError::InvalidPointError);
        },
    };
    let ikm = concat_bytes(&unblinded, input);
    let output = hkdf_extract_sha256(ikm.as_slice());
    proof {
        let rv = le_val(blinding_factor@);
        let iv = le_val(inverse@);
        assert forall|h: Seq<u8>, k: nat|
            elem_valid(h) && k < group_order() && point@ == elem_scalar_mul(
                h,
                (rv * k) % group_order(),
            ) implies output@ == #[trigger] prf_output(h, k, input@) by {
            let a = (rv * k) % group_order();
            assert(unblinded@ == elem_scalar_mul(h, (a * iv) % group_order()));
            lemma_unblind_exponent(rv, iv, k);
            assert(unblinded@ == elem_scalar_mul(h, k));
        }
    }
    Ok(output)
}

/// The PRF computed directly, with no blinding: hash the input to the
/// curve, raise the point to the key, and run the finalize hash.  This is
/// the reference path that a blinded round trip must reproduce.
pub fn direct_prf<D: HkdfDigest>(input: &[u8], pepper: Option<&[u8]>, oprf_key: &Vec<u8>) -> (r:
    Vec<u8>)
    requires
        oprf_key@.len() == 32,
        le_val(oprf_key@) < group_order(),
    ensures
        r@.len() == 32,
        r@ == prf_output(
            blind_base_point::<D>(input@, opt_bytes_view(pepper)),
            le_val(oprf_key@),
            input@,
        ),
{
    let hashed_input = D::extract(pepper, input);
    let base_point = hash_to_curve(hashed_input.as_slice());
    let res = match ristretto_mul(&base_point, oprf_key) {
        Some(p) => p,
        None => unreached(),
    };
    let ikm = concat_bytes(&res, input);
    hkdf_extract_sha256(ikm.as_slice())
}

/// Runs the whole protocol in one place under a caller-supplied blinding
/// factor: blind, evaluate, unblind and finalize.
///
/// Its contract is the round-trip law of the OPRF: the output is a function
/// of the input, the pepper and the key alone — the same bytes `direct_prf`
/// returns — whichever invertible blinding factor was supplied, and
/// byte-identical across repeated calls with the same arguments.
pub fn blinded_prf_round_trip<D: HkdfDigest>(
    input: &[u8],
    pepper: Option<&[u8]>,
    oprf_key: &Vec<u8>,
    blinding_factor_bytes: &Vec<u8>,
) -> (r: Result<Vec<u8>, InternalPakeError>)
    requires
        oprf_key@.len() == 32,
        le_val(oprf_key@) < group_order(),
        blinding_factor_bytes@.len() == 32,
    ensures
        r is Ok <==> le_val(blinding_factor_bytes@) % group_order() != 0,
        r matches Err(e) ==> e == InternalPakeError::InvalidScalarError,
        r matches Ok(output) ==> output@ == prf_output(
            blind_base_point::<D>(input@, opt_bytes_view(pepper)),
            le_val(oprf_key@),
            input@,
        ),
{
    let state = match generate_oprf1_with_factor::<D>(input, pepper, blinding_factor_bytes) {
        Ok(s) => s,
        Err(e) => {
            return Err(e);
        },
    };
    let beta = match generate_oprf2(&state.alpha, oprf_key) {
        Ok(b) => b,
        Err(_) => unreached(),
    };
    match generate_oprf3(input, &beta, &state.blinding_factor) {
        Ok(output) => Ok(output),
        Err(_) => unreached(),
    }
}

} // verus!

