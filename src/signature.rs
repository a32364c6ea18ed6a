use vstd::prelude::*;

use soroban_sdk::Env;

use crate::encoding::check_point_encoding;
use crate::host::{
    g1_is_in_subgroup, g1_is_on_curve, g1_negation, g1_valid, g2_is_in_subgroup, g2_is_on_curve, g2_valid,
    hashed_to_g1, pairing_product_is_one,
};

verus! {

/// Length of a serialized (uncompressed) G1 point: a signature.
pub const SIGNATURE_LEN: usize = 96;

/// Length of a serialized (uncompressed) G2 point: a public key.
pub const PUBLIC_KEY_LEN: usize = 192;

/// Domain-separation tag of the minimal-signature-size BLS scheme.
pub open spec fn signature_dst() -> Seq<u8> {
    seq![0x42u8, 0x4cu8, 0x53u8, 0x5fu8, 0x53u8, 0x49u8, 0x47u8, 0x5fu8, 0x42u8, 0x4cu8, 0x53u8, 0x31u8, 0x32u8, 0x33u8, 0x38u8, 0x31u8, 0x47u8, 0x31u8, 0x5fu8, 0x58u8, 0x4du8, 0x44u8, 0x3au8, 0x53u8, 0x48u8, 0x41u8, 0x2du8, 0x32u8, 0x35u8, 0x36u8, 0x5fu8, 0x53u8, 0x53u8, 0x57u8, 0x55u8, 0x5fu8, 0x52u8, 0x4fu8, 0x5fu8, 0x4eu8, 0x55u8, 0x4cu8, 0x5fu8]
}

/// The standard generator of G2, serialized uncompressed.
pub open spec fn g2_generator() -> Seq<u8> {
    seq![0x13u8, 0xe0u8, 0x2bu8, 0x60u8, 0x52u8, 0x71u8, 0x9fu8, 0x60u8, 0x7du8, 0xacu8, 0xd3u8, 0xa0u8, 0x88u8, 0x27u8, 0x4fu8, 0x65u8, 0x59u8, 0x6bu8, 0xd0u8, 0xd0u8, 0x99u8, 0x20u8, 0xb6u8, 0x1au8, 0xb5u8, 0xdau8, 0x61u8, 0xbbu8, 0xdcu8, 0x7fu8, 0x50u8, 0x49u8, 0x33u8, 0x4cu8, 0xf1u8, 0x12u8, 0x13u8, 0x94u8, 0x5du8, 0x57u8, 0xe5u8, 0xacu8, 0x7du8, 0x05u8, 0x5du8, 0x04u8, 0x2bu8, 0x7eu8, 0x02u8, 0x4au8, 0xa2u8, 0xb2u8, 0xf0u8, 0x8fu8, 0x0au8, 0x91u8, 0x26u8, 0x08u8, 0x05u8, 0x27u8, 0x2du8, 0xc5u8, 0x10u8, 0x51u8, 0xc6u8, 0xe4u8, 0x7au8, 0xd4u8, 0xfau8, 0x40u8, 0x3bu8, 0x02u8, 0xb4u8, 0x51u8, 0x0bu8, 0x64u8, 0x7au8, 0xe3u8, 0xd1u8, 0x77u8, 0x0bu8, 0xacu8, 0x03u8, 0x26u8, 0xa8u8, 0x05u8, 0xbbu8, 0xefu8, 0xd4u8, 0x80u8, 0x56u8, 0xc8u8, 0xc1u8, 0x21u8, 0xbdu8, 0xb8u8, 0x06u8, 0x06u8, 0xc4u8, 0xa0u8, 0x2eu8, 0xa7u8, 0x34u8, 0xccu8, 0x32u8, 0xacu8, 0xd2u8, 0xb0u8, 0x2bu8, 0xc2u8, 0x8bu8, 0x99u8, 0xcbu8, 0x3eu8, 0x28u8, 0x7eu8, 0x85u8, 0xa7u8, 0x63u8, 0xafu8, 0x26u8, 0x74u8, 0x92u8, 0xabu8, 0x57u8, 0x2eu8, 0x99u8, 0xabu8, 0x3fu8, 0x37u8, 0x0du8, 0x27u8, 0x5cu8, 0xecu8, 0x1du8, 0xa1u8, 0xaau8, 0xa9u8, 0x07u8, 0x5fu8, 0xf0u8, 0x5fu8, 0x79u8, 0xbeu8, 0x0cu8, 0xe5u8, 0xd5u8, 0x27u8, 0x72u8, 0x7du8, 0x6eu8, 0x11u8, 0x8cu8, 0xc9u8, 0xcdu8, 0xc6u8, 0xdau8, 0x2eu8, 0x35u8, 0x1au8, 0xadu8, 0xfdu8, 0x9bu8, 0xaau8, 0x8cu8, 0xbdu8, 0xd3u8, 0xa7u8, 0x6du8, 0x42u8, 0x9au8, 0x69u8, 0x51u8, 0x60u8, 0xd1u8, 0x2cu8, 0x92u8, 0x3au8, 0xc9u8, 0xccu8, 0x3bu8, 0xacu8, 0xa2u8, 0x89u8, 0xe1u8, 0x93u8, 0x54u8, 0x86u8, 0x08u8, 0xb8u8, 0x28u8, 0x01u8]
}

pub fn signature_dst_bytes() -> (r: Vec<u8>)
    ensures
        r@ == signature_dst(),
{
    let v: Vec<u8> = vec![0x42u8, 0x4cu8, 0x53u8, 0x5fu8, 0x53u8, 0x49u8, 0x47u8, 0x5fu8, 0x42u8, 0x4cu8, 0x53u8, 0x31u8, 0x32u8, 0x33u8, 0x38u8, 0x31u8, 0x47u8, 0x31u8, 0x5fu8, 0x58u8, 0x4du8, 0x44u8, 0x3au8, 0x53u8, 0x48u8, 0x41u8, 0x2du8, 0x32u8, 0x35u8, 0x36u8, 0x5fu8, 0x53u8, 0x53u8, 0x57u8, 0x55u8, 0x5fu8, 0x52u8, 0x4fu8, 0x5fu8, 0x4eu8, 0x55u8, 0x4cu8, 0x5fu8];
    assert(v@ =~= signature_dst());
    v
}

pub fn g2_generator_bytes() -> (r: Vec<u8>)
    ensures
        r@ == g2_generator(),
{
    let v: Vec<u8> = vec![0x13u8, 0xe0u8, 0x2bu8, 0x60u8, 0x52u8, 0x71u8, 0x9fu8, 0x60u8, 0x7du8, 0xacu8, 0xd3u8, 0xa0u8, 0x88u8, 0x27u8, 0x4fu8, 0x65u8, 0x59u8, 0x6bu8, 0xd0u8, 0xd0u8, 0x99u8, 0x20u8, 0xb6u8, 0x1au8, 0xb5u8, 0xdau8, 0x61u8, 0xbbu8, 0xdcu8, 0x7fu8, 0x50u8, 0x49u8, 0x33u8, 0x4cu8, 0xf1u8, 0x12u8, 0x13u8, 0x94u8, 0x5du8, 0x57u8, 0xe5u8, 0xacu8, 0x7du8, 0x05u8, 0x5du8, 0x04u8, 0x2bu8, 0x7eu8, 0x02u8, 0x4au8, 0xa2u8, 0xb2u8, 0xf0u8, 0x8fu8, 0x0au8, 0x91u8, 0x26u8, 0x08u8, 0x05u8, 0x27u8, 0x2du8, 0xc5u8, 0x10u8, 0x51u8, 0xc6u8, 0xe4u8, 0x7au8, 0xd4u8, 0xfau8, 0x40u8, 0x3bu8, 0x02u8, 0xb4u8, 0x51u8, 0x0bu8, 0x64u8, 0x7au8, 0xe3u8, 0xd1u8, 0x77u8, 0x0bu8, 0xacu8, 0x03u8, 0x26u8, 0xa8u8, 0x05u8, 0xbbu8, 0xefu8, 0xd4u8, 0x80u8, 0x56u8, 0xc8u8, 0xc1u8, 0x21u8, 0xbdu8, 0xb8u8, 0x06u8, 0x06u8, 0xc4u8, 0xa0u8, 0x2eu8, 0xa7u8, 0x34u8, 0xccu8, 0x32u8, 0xacu8, 0xd2u8, 0xb0u8, 0x2bu8, 0xc2u8, 0x8bu8, 0x99u8, 0xcbu8, 0x3eu8, 0x28u8, 0x7eu8, 0x85u8, 0xa7u8, 0x63u8, 0xafu8, 0x26u8, 0x74u8, 0x92u8, 0xabu8, 0x57u8, 0x2eu8, 0x99u8, 0xabu8, 0x3fu8, 0x37u8, 0x0du8, 0x27u8, 0x5cu8, 0xecu8, 0x1du8, 0xa1u8, 0xaau8, 0xa9u8, 0x07u8, 0x5fu8, 0xf0u8, 0x5fu8, 0x79u8, 0xbeu8, 0x0cu8, 0xe5u8, 0xd5u8, 0x27u8, 0x72u8, 0x7du8, 0x6eu8, 0x11u8, 0x8cu8, 0xc9u8, 0xcdu8, 0xc6u8, 0xdau8, 0x2eu8, 0x35u8, 0x1au8, 0xadu8, 0xfdu8, 0x9bu8, 0xaau8, 0x8cu8, 0xbdu8, 0xd3u8, 0xa7u8, 0x6du8, 0x42u8, 0x9au8, 0x69u8, 0x51u8, 0x60u8, 0xd1u8, 0x2cu8, 0x92u8, 0x3au8, 0xc9u8, 0xccu8, 0x3bu8, 0xacu8, 0xa2u8, 0x89u8, 0xe1u8, 0x93u8, 0x54u8, 0x86u8, 0x08u8, 0xb8u8, 0x28u8, 0x01u8];
    assert(v@ =~= g2_generator());
    v
}

/// Whether a well-encoded point is the point at infinity.
pub open spec fn is_infinity(point: Seq<u8>) -> bool {
    point[0] == 0x40u8
}

/// Whether `signature` is a BLS signature by `public_key` over `message`:
/// both are valid points of their groups, the key is not the identity, and
/// e(signature, g2) == e(H(message), public_key), checked as
/// e(signature, g2) * e(-H(message), public_key) == 1.
pub open spec fn signature_valid(public_key: Seq<u8>, message: Seq<u8>, signature: Seq<u8>) -> bool {
    &&& g2_valid(public_key)
    &&& !is_infinity(public_key)
    &&& g1_valid(signature)
    &&& g2_valid(g2_generator())
    &&& pairing_product_is_one(
        signature,
        g2_generator(),
        g1_negation(hashed_to_g1(message, signature_dst())),
        public_key,
    )
}

/// Whether `point` is a valid serialized G1 point; never traps.
pub fn check_g1_point(env: &Env, point: &Vec<u8>) -> (r: bool)
    ensures
        r == g1_valid(point@),
{
    if point.len() != SIGNATURE_LEN || !check_point_encoding(point) {
        return false;
    }
    if !g1_is_on_curve(env, point) {
        return false;
    }
    g1_is_in_subgroup(env, point)
}

/// Whether `point` is a valid serialized G2 point; never traps.
pub fn check_g2_point(env: &Env, point: &Vec<u8>) -> (r: bool)
    ensures
        r == g2_valid(point@),
{
    if point.len() != PUBLIC_KEY_LEN || !check_point_encoding(point) {
        return false;
    }
    if !g2_is_on_curve(env, point) {
        return false;
    }
    g2_is_in_subgroup(env, point)
}

} // verus!
