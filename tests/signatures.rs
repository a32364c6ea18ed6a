use soroban_sdk::crypto::bls12_381::{Bls12381Fr, Bls12381G2Affine};
use soroban_sdk::{Bytes, BytesN, Env, U256};
use soroban_swaps::bridge::StellarEthBridge;
use soroban_swaps::signature::{g2_generator_bytes, signature_dst_bytes};

fn keypair(env: &Env, secret: u32) -> (Bls12381Fr, Vec<u8>) {
    let sk = Bls12381Fr::from_u256(U256::from_u32(env, secret));
    let gen: [u8; 192] = g2_generator_bytes().as_slice().try_into().unwrap();
    let g = Bls12381G2Affine::from_bytes(BytesN::from_array(env, &gen));
    let pk = env.crypto().bls12_381().g2_mul(&g, &sk);
    (sk, pk.to_bytes().to_array().to_vec())
}

fn sign(env: &Env, sk: &Bls12381Fr, message: &[u8]) -> Vec<u8> {
    let bls = env.crypto().bls12_381();
    let dst = Bytes::from_slice(env, &signature_dst_bytes());
    let h = bls.hash_to_g1(&Bytes::from_slice(env, message), &dst);
    bls.g1_mul(&h, sk).to_bytes().to_array().to_vec()
}

fn message(user: &[u8], amount: i128, nonce: u64) -> Vec<u8> {
    let mut m = (user.len() as u32).to_be_bytes().to_vec();
    m.extend_from_slice(user);
    m.extend_from_slice(&amount.to_be_bytes());
    m.extend_from_slice(&nonce.to_be_bytes());
    m
}

#[test]
fn signature_dst_names_the_scheme() {
    assert_eq!(signature_dst_bytes(), b"BLS_SIG_BLS12381G1_XMD:SHA-256_SSWU_RO_NUL_".to_vec());
    assert_eq!(g2_generator_bytes().len(), 192);
}

#[test]
fn valid_signature_verifies() {
    let env = Env::default();
    let (sk, pk) = keypair(&env, 12345);
    let msg = b"lock 100 for bob".to_vec();
    let sig = sign(&env, &sk, &msg);
    assert!(StellarEthBridge::verify_signature(&env, &pk, &msg, &sig));
}

#[test]
fn signature_for_other_message_rejected() {
    let env = Env::default();
    let (sk, pk) = keypair(&env, 12345);
    let sig = sign(&env, &sk, b"lock 100 for bob");
    assert!(!StellarEthBridge::verify_signature(&env, &pk, &b"lock 900 for bob".to_vec(), &sig));
}

#[test]
fn signature_by_other_key_rejected() {
    let env = Env::default();
    let (sk, _) = keypair(&env, 12345);
    let (_, other_pk) = keypair(&env, 777);
    let msg = b"m".to_vec();
    let sig = sign(&env, &sk, &msg);
    assert!(!StellarEthBridge::verify_signature(&env, &other_pk, &msg, &sig));
}

#[test]
fn truncated_key_or_signature_rejected() {
    let env = Env::default();
    let (sk, pk) = keypair(&env, 5);
    let msg = b"m".to_vec();
    let sig = sign(&env, &sk, &msg);
    assert!(!StellarEthBridge::verify_signature(&env, &pk[..191].to_vec(), &msg, &sig));
    assert!(!StellarEthBridge::verify_signature(&env, &pk, &msg, &sig[..95].to_vec()));
    assert!(!StellarEthBridge::verify_signature(&env, &vec![], &msg, &sig));
    assert!(!StellarEthBridge::verify_signature(&env, &pk, &msg, &vec![]));
}

#[test]
fn swap_from_eth_mints_once_with_valid_signature() {
    let env = Env::default();
    let (sk, pk) = keypair(&env, 99);
    let msg = message(b"bob", 640, 7);
    let sig = sign(&env, &sk, &msg);
    let mut b = StellarEthBridge::new();
    assert!(b.swap_from_eth(&env, b"0xfeed".to_vec(), &pk, &msg, &sig));
    assert_eq!(b.balance_of(&b"bob".to_vec()), 640);
    assert!(!b.swap_from_eth(&env, b"0xfeed".to_vec(), &pk, &msg, &sig));
    assert_eq!(b.balance_of(&b"bob".to_vec()), 640);
}

#[test]
fn swap_from_eth_refuses_bad_signature() {
    let env = Env::default();
    let (sk, pk) = keypair(&env, 99);
    let msg = message(b"bob", 640, 7);
    let sig = sign(&env, &sk, &message(b"bob", 641, 7));
    let mut b = StellarEthBridge::new();
    assert!(!b.swap_from_eth(&env, b"0xfeed".to_vec(), &pk, &msg, &sig));
    assert!(!b.is_processed(&b"0xfeed".to_vec()));
    assert_eq!(b.balance_of(&b"bob".to_vec()), 0);
}

#[test]
fn malformed_points_of_right_length_rejected() {
    let env = Env::default();
    let (sk, pk) = keypair(&env, 5);
    let msg = b"m".to_vec();
    let sig = sign(&env, &sk, &msg);
    let mut flagged = sig.clone();
    flagged[0] |= 0x80;
    assert!(!StellarEthBridge::verify_signature(&env, &pk, &msg, &flagged));
    let mut sorted = pk.clone();
    sorted[0] |= 0x20;
    assert!(!StellarEthBridge::verify_signature(&env, &sorted, &msg, &sig));
    let mut bad_infinity = vec![0u8; 96];
    bad_infinity[0] = 0x40;
    bad_infinity[95] = 1;
    assert!(!StellarEthBridge::verify_signature(&env, &pk, &msg, &bad_infinity));
    let mut too_big = vec![0xffu8; 96];
    too_big[0] = 0x1f;
    assert!(!StellarEthBridge::verify_signature(&env, &pk, &msg, &too_big));
    let mut off_curve = vec![0u8; 96];
    off_curve[95] = 1;
    assert!(!StellarEthBridge::verify_signature(&env, &pk, &msg, &off_curve));
    let mut off_curve_key = vec![0u8; 192];
    off_curve_key[191] = 3;
    assert!(!StellarEthBridge::verify_signature(&env, &off_curve_key, &msg, &sig));
}

#[test]
fn identity_key_rejected() {
    let env = Env::default();
    let mut inf_key = vec![0u8; 192];
    inf_key[0] = 0x40;
    let mut inf_sig = vec![0u8; 96];
    inf_sig[0] = 0x40;
    assert!(!StellarEthBridge::verify_signature(&env, &inf_key, &b"m".to_vec(), &inf_sig));
}
