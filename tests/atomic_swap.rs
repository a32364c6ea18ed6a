use soroban_sdk::Env;
use soroban_swaps::swap::{SwapError, SwapPhase, USDCAtomicSwap};

const T: u64 = 1_000_000;

fn digest_of_x() -> Vec<u8> {
    vec![
        0x2d, 0x71, 0x16, 0x42, 0xb7, 0x26, 0xb0, 0x44, 0x01, 0x62, 0x7c, 0xa9, 0xfb, 0xac, 0x32, 0xf5,
        0xc8, 0x53, 0x0f, 0xb1, 0x90, 0x3c, 0xc4, 0xdb, 0x02, 0x25, 0x87, 0x17, 0x92, 0x1a, 0x48, 0x81,
    ]
}

fn engine_with_s1() -> USDCAtomicSwap {
    let mut e = USDCAtomicSwap::new(b"custody".to_vec());
    let t = e
        .initiate_swap(b"S1".to_vec(), b"A".to_vec(), b"B".to_vec(), 100, digest_of_x(), 1000, T)
        .unwrap();
    assert_eq!(t.from, b"A".to_vec());
    assert_eq!(t.to, b"custody".to_vec());
    assert_eq!(t.amount, 100);
    e
}

#[test]
fn initiate_records_open_swap() {
    let e = engine_with_s1();
    let s = e.get_swap(&b"S1".to_vec()).unwrap();
    assert_eq!(s.time_lock, T + 1000);
    assert_eq!(s.phase, SwapPhase::Created);
    assert!(!s.redeemed() && !s.refunded());
    assert!(s.secret.is_none());
    assert_eq!(s.amount, 100);
}

#[test]
fn redeem_then_refund_scenario() {
    let env = Env::default();
    let mut e = engine_with_s1();
    let t = e.redeem(&env, &b"S1".to_vec(), &b"B".to_vec(), b"x".to_vec(), T + 500).unwrap();
    assert_eq!(t.from, b"custody".to_vec());
    assert_eq!(t.to, b"B".to_vec());
    assert_eq!(t.amount, 100);
    let s = e.get_swap(&b"S1".to_vec()).unwrap();
    assert!(s.redeemed());
    assert!(!s.refunded());
    assert_eq!(s.secret, Some(b"x".to_vec()));
    assert_eq!(e.refund(&b"S1".to_vec(), &b"A".to_vec(), T + 2000).err(), Some(SwapError::AlreadyRedeemed));
    assert!(e.get_swap(&b"S1".to_vec()).unwrap().redeemed());
}

#[test]
fn refund_waits_for_deadline_scenario() {
    let mut e = engine_with_s1();
    assert_eq!(e.refund(&b"S1".to_vec(), &b"A".to_vec(), T + 999).err(), Some(SwapError::TimeLockNotExpired));
    assert_eq!(e.get_swap(&b"S1".to_vec()).unwrap().phase, SwapPhase::Created);
    let t = e.refund(&b"S1".to_vec(), &b"A".to_vec(), T + 1000).unwrap();
    assert_eq!(t.from, b"custody".to_vec());
    assert_eq!(t.to, b"A".to_vec());
    assert_eq!(t.amount, 100);
    assert!(e.get_swap(&b"S1".to_vec()).unwrap().refunded());
    assert_eq!(e.refund(&b"S1".to_vec(), &b"A".to_vec(), T + 1001).err(), Some(SwapError::AlreadyRefunded));
}

#[test]
fn redeem_checks_each_condition() {
    let env = Env::default();
    let mut e = engine_with_s1();
    let id = b"S1".to_vec();
    assert_eq!(e.redeem(&env, &b"S2".to_vec(), &b"B".to_vec(), b"x".to_vec(), T).err(), Some(SwapError::NotFound));
    assert_eq!(e.redeem(&env, &id, &b"A".to_vec(), b"x".to_vec(), T).err(), Some(SwapError::NotAuthorized));
    assert_eq!(e.redeem(&env, &id, &b"B".to_vec(), b"y".to_vec(), T).err(), Some(SwapError::InvalidSecret));
    assert_eq!(e.redeem(&env, &id, &b"B".to_vec(), b"x".to_vec(), T + 1000).err(), Some(SwapError::TimeLockExpired));
    assert_eq!(e.get_swap(&id).unwrap().phase, SwapPhase::Created);
    assert!(e.redeem(&env, &id, &b"B".to_vec(), b"x".to_vec(), T + 999).is_ok());
    assert_eq!(e.redeem(&env, &id, &b"B".to_vec(), b"x".to_vec(), T + 999).err(), Some(SwapError::AlreadyRedeemed));
}

#[test]
fn redeem_with_digest_compares_against_hash_lock() {
    let mut e = engine_with_s1();
    let id = b"S1".to_vec();
    assert_eq!(
        e.redeem_with_digest(&id, &b"B".to_vec(), b"x".to_vec(), &b"x".to_vec(), T).err(),
        Some(SwapError::InvalidSecret)
    );
    assert!(e.redeem_with_digest(&id, &b"B".to_vec(), b"x".to_vec(), &digest_of_x(), T).is_ok());
    assert!(e.get_swap(&id).unwrap().redeemed());
}

#[test]
fn refund_refused_to_others_and_after_redeem() {
    let mut e = engine_with_s1();
    let id = b"S1".to_vec();
    assert_eq!(e.refund(&id, &b"B".to_vec(), T + 5000).err(), Some(SwapError::NotAuthorized));
    assert_eq!(e.refund(&b"S9".to_vec(), &b"A".to_vec(), T + 5000).err(), Some(SwapError::NotFound));
    assert!(e.redeem_with_digest(&id, &b"B".to_vec(), b"x".to_vec(), &digest_of_x(), T).is_ok());
    assert_eq!(e.refund(&id, &b"A".to_vec(), T + 5000).err(), Some(SwapError::AlreadyRedeemed));
}

#[test]
fn initiate_errors() {
    let mut e = engine_with_s1();
    assert_eq!(
        e.initiate_swap(b"S1".to_vec(), b"C".to_vec(), b"D".to_vec(), 5, digest_of_x(), 10, T).err(),
        Some(SwapError::AlreadyExists)
    );
    assert_eq!(
        e.initiate_swap(b"S2".to_vec(), b"C".to_vec(), b"D".to_vec(), 0, digest_of_x(), 10, T).err(),
        Some(SwapError::InvalidAmount)
    );
    assert_eq!(
        e.initiate_swap(b"S2".to_vec(), b"C".to_vec(), b"D".to_vec(), 5, digest_of_x(), u64::MAX, T).err(),
        Some(SwapError::DeadlineOverflow)
    );
    assert_eq!(e.get_swap(&b"S2".to_vec()).err(), Some(SwapError::NotFound));
    assert_eq!(e.get_swap(&b"S1".to_vec()).unwrap().participant, b"B".to_vec());
}
