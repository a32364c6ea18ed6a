use vstd::prelude::*;

use soroban_sdk::{Bytes, BytesN, Env};
use soroban_sdk::crypto::bls12_381::Bls12381G1Affine;
use soroban_sdk::crypto::bls12_381::Bls12381G2Affine;

use crate::encoding::point_encoding_ok;

verus! {

/// The host environment through which the ledger's cryptographic services are reached.
#[verifier::external_type_specification]
#[verifier::external_body]
pub struct ExEnv(Env);

/// The serialized G1 point that hashing `message` under tag `dst` yields.
pub uninterp spec fn hashed_to_g1(message: Seq<u8>, dst: Seq<u8>) -> Seq<u8>;

/// The serialized negation of a serialized G1 point.
pub uninterp spec fn g1_negation(point: Seq<u8>) -> Seq<u8>;

/// Whether e(p1, q1) * e(p2, q2) is the identity of the target group.
pub uninterp spec fn pairing_product_is_one(p1: Seq<u8>, q1: Seq<u8>, p2: Seq<u8>, q2: Seq<u8>) -> bool;

/// Whether a well-encoded 96-byte G1 point lies on the curve.
pub uninterp spec fn g1_on_curve(point: Seq<u8>) -> bool;

/// Whether a well-encoded G1 point on the curve lies in the prime-order subgroup.
pub uninterp spec fn g1_in_subgroup(point: Seq<u8>) -> bool;

/// Whether a well-encoded 192-byte G2 point lies on the curve.
pub uninterp spec fn g2_on_curve(point: Seq<u8>) -> bool;

/// Whether a well-encoded G2 point on the curve lies in the prime-order subgroup.
pub uninterp spec fn g2_in_subgroup(point: Seq<u8>) -> bool;

/// A serialized G1 point that every host operation accepts.
pub open spec fn g1_valid(point: Seq<u8>) -> bool {
    point.len() == 96 && point_encoding_ok(point) && g1_on_curve(point) && g1_in_subgroup(point)
}

/// A serialized G2 point that every host operation accepts.
pub open spec fn g2_valid(point: Seq<u8>) -> bool {
    point.len() == 192 && point_encoding_ok(point) && g2_on_curve(point) && g2_in_subgroup(point)
}

/// The SHA-256 digest of a byte string.
pub uninterp spec fn sha256_of(data: Seq<u8>) -> Seq<u8>;

/// Relies on soroban_sdk's `Bls12_381::hash_to_g1`: a deterministic hash of
/// `message` onto G1 under the tag `dst`, a point of the prime-order subgroup
/// (the host clears the cofactor), serialized by the host as 96 bytes.
/// The host refuses an empty tag or one longer than 255 bytes.
#[verifier::external_body]
pub(crate) fn hash_to_g1(env: &Env, message: &Vec<u8>, dst: &Vec<u8>) -> (r: Vec<u8>)
    requires
        0 < dst@.len() <= 255,
    ensures
        r@ == hashed_to_g1(message@, dst@),
        g1_valid(r@),
{
    let m = Bytes::from_slice(env, message.as_slice());
    let d = Bytes::from_slice(env, dst.as_slice());
    env.crypto().bls12_381().hash_to_g1(&m, &d).to_bytes().to_array().to_vec()
}

/// Relies on soroban_sdk's `Neg` for `&Bls12381G1Affine`, which replaces the
/// Y coordinate by its field negation (it panics on a Y at or above the
/// modulus, which a valid point does not have). The negation of a point of
/// the subgroup is again one.
#[verifier::external_body]
pub(crate) fn g1_negate(env: &Env, point: &Vec<u8>) -> (r: Vec<u8>)
    requires
        g1_valid(point@),
    ensures
        r@ == g1_negation(point@),
        g1_valid(r@),
{
    let arr: [u8; 96] = point.as_slice().try_into().unwrap();
    let p = Bls12381G1Affine::from_bytes(BytesN::from_array(env, &arr));
    (-&p).to_bytes().to_array().to_vec()
}

/// Relies on soroban_sdk's `Bls12_381::pairing_check` on two pairs: whether
/// e(p1, q1) * e(p2, q2) == 1. The host traps on a point that is badly
/// encoded, off the curve or outside the subgroup, so all four are valid.
#[verifier::external_body]
pub(crate) fn pairing_check(env: &Env, p1: &Vec<u8>, q1: &Vec<u8>, p2: &Vec<u8>, q2: &Vec<u8>) -> (r: bool)
    requires
        g1_valid(p1@),
        g1_valid(p2@),
        g2_valid(q1@),
        g2_valid(q2@),
    ensures
        r == pairing_product_is_one(p1@, q1@, p2@, q2@),
{
    let g1 = |b: &Vec<u8>| Bls12381G1Affine::from_bytes(BytesN::from_array(env, &b.as_slice().try_into().unwrap()));
    let g2 = |b: &Vec<u8>| Bls12381G2Affine::from_bytes(BytesN::from_array(env, &b.as_slice().try_into().unwrap()));
    let ps = soroban_sdk::Vec::from_array(env, [g1(p1), g1(p2)]);
    let qs = soroban_sdk::Vec::from_array(env, [g2(q1), g2(q2)]);
    env.crypto().bls12_381().pairing_check(ps, qs)
}

/// Relies on soroban_sdk's `Bls12_381::g1_is_on_curve`. The host traps only
/// on a bad encoding, which `requires` leaves out.
#[verifier::external_body]
pub(crate) fn g1_is_on_curve(env: &Env, point: &Vec<u8>) -> (r: bool)
    requires
        point@.len() == 96,
        point_encoding_ok(point@),
    ensures
        r == g1_on_curve(point@),
{
    let arr: [u8; 96] = point.as_slice().try_into().unwrap();
    env.crypto().bls12_381().g1_is_on_curve(&Bls12381G1Affine::from_bytes(BytesN::from_array(env, &arr)))
}

/// Relies on soroban_sdk's `Bls12_381::g1_is_in_subgroup`. The host traps on
/// a bad encoding or a point off the curve, which `requires` leaves out.
#[verifier::external_body]
pub(crate) fn g1_is_in_subgroup(env: &Env, point: &Vec<u8>) -> (r: bool)
    requires
        point@.len() == 96,
        point_encoding_ok(point@),
        g1_on_curve(point@),
    ensures
        r == g1_in_subgroup(point@),
{
    let arr: [u8; 96] = point.as_slice().try_into().unwrap();
    env.crypto().bls12_381().g1_is_in_subgroup(&Bls12381G1Affine::from_bytes(BytesN::from_array(env, &arr)))
}

/// Relies on soroban_sdk's `Bls12_381::g2_is_on_curve`. The host traps only
/// on a bad encoding, which `requires` leaves out.
#[verifier::external_body]
pub(crate) fn g2_is_on_curve(env: &Env, point: &Vec<u8>) -> (r: bool)
    requires
        point@.len() == 192,
        point_encoding_ok(point@),
    ensures
        r == g2_on_curve(point@),
{
    let arr: [u8; 192] = point.as_slice().try_into().unwrap();
    env.crypto().bls12_381().g2_is_on_curve(&Bls12381G2Affine::from_bytes(BytesN::from_array(env, &arr)))
}

/// Relies on soroban_sdk's `Bls12_381::g2_is_in_subgroup`. The host traps on
/// a bad encoding or a point off the curve, which `requires` leaves out.
#[verifier::external_body]
pub(crate) fn g2_is_in_subgroup(env: &Env, point: &Vec<u8>) -> (r: bool)
    requires
        point@.len() == 192,
        point_encoding_ok(point@),
        g2_on_curve(point@),
    ensures
        r == g2_in_subgroup(point@),
{
    let arr: [u8; 192] = point.as_slice().try_into().unwrap();
    env.crypto().bls12_381().g2_is_in_subgroup(&Bls12381G2Affine::from_bytes(BytesN::from_array(env, &arr)))
}

/// Relies on soroban_sdk's `Crypto::sha256`: the 32-byte SHA-256 digest of `data`.
#[verifier::external_body]
pub(crate) fn sha256(env: &Env, data: &Vec<u8>) -> (r: Vec<u8>)
    ensures
        r@ == sha256_of(data@),
        r@.len() == 32,
{
    env.crypto().sha256(&Bytes::from_slice(env, data.as_slice())).to_array().to_vec()
}

} // verus!
