use soroban_swaps::bridge::StellarEthBridge;
use soroban_swaps::codec::{encode_message, parse_message, SwapEventData};

fn message(user: &[u8], amount: i128, nonce: u64) -> Vec<u8> {
    let mut m = (user.len() as u32).to_be_bytes().to_vec();
    m.extend_from_slice(user);
    m.extend_from_slice(&amount.to_be_bytes());
    m.extend_from_slice(&nonce.to_be_bytes());
    m
}

#[test]
fn lock_adds_amount_and_bumps_nonce() {
    let mut b = StellarEthBridge::new();
    let e = b.swap_to_eth(b"alice".to_vec(), 250).unwrap();
    assert_eq!(e.user, b"alice".to_vec());
    assert_eq!(e.amount, 250);
    assert_eq!(e.nonce, 1);
    assert_eq!(b.balance_of(&b"alice".to_vec()), 250);
    assert_eq!(b.current_nonce(), 1);
    let e = b.swap_to_eth(b"alice".to_vec(), 50).unwrap();
    assert_eq!(e.nonce, 2);
    assert_eq!(b.balance_of(&b"alice".to_vec()), 300);
}

#[test]
fn lock_rejects_non_positive_amounts() {
    let mut b = StellarEthBridge::new();
    assert!(b.swap_to_eth(b"alice".to_vec(), 0).is_none());
    assert!(b.swap_to_eth(b"alice".to_vec(), -5).is_none());
    assert_eq!(b.balance_of(&b"alice".to_vec()), 0);
    assert_eq!(b.current_nonce(), 0);
}

#[test]
fn lock_rejects_balance_overflow() {
    let mut b = StellarEthBridge::new();
    assert!(b.swap_to_eth(b"u".to_vec(), i128::MAX).is_some());
    assert!(b.swap_to_eth(b"u".to_vec(), 1).is_none());
    assert_eq!(b.balance_of(&b"u".to_vec()), i128::MAX);
    assert_eq!(b.current_nonce(), 1);
}

#[test]
fn nonces_are_consecutive_across_users() {
    let mut b = StellarEthBridge::new();
    let users: [&[u8]; 4] = [b"a", b"b", b"a", b"c"];
    for (k, u) in users.iter().enumerate() {
        let e = b.swap_to_eth(u.to_vec(), 10).unwrap();
        assert_eq!(e.nonce, k as u64 + 1);
    }
    assert!(b.swap_to_eth(b"d".to_vec(), 0).is_none());
    assert_eq!(b.swap_to_eth(b"d".to_vec(), 1).unwrap().nonce, 5);
    assert_eq!(b.balance_of(&b"a".to_vec()), 20);
}

#[test]
fn mint_adds_parsed_amount_once() {
    let mut b = StellarEthBridge::new();
    let m = message(b"bob", 700, 3);
    assert!(b.mint_inbound(b"tx1".to_vec(), &m, true));
    assert_eq!(b.balance_of(&b"bob".to_vec()), 700);
    assert!(b.is_processed(&b"tx1".to_vec()));
    assert!(!b.mint_inbound(b"tx1".to_vec(), &m, true));
    assert_eq!(b.balance_of(&b"bob".to_vec()), 700);
    assert!(b.mint_inbound(b"tx2".to_vec(), &m, true));
    assert_eq!(b.balance_of(&b"bob".to_vec()), 1400);
    assert_eq!(b.current_nonce(), 0);
}

#[test]
fn mint_of_processed_tx_refused_whatever_the_signature() {
    let mut b = StellarEthBridge::new();
    let m = message(b"bob", 5, 1);
    assert!(b.mint_inbound(b"tx".to_vec(), &m, true));
    assert!(!b.mint_inbound(b"tx".to_vec(), &message(b"eve", 9, 1), true));
    assert!(!b.mint_inbound(b"tx".to_vec(), &m, false));
    assert_eq!(b.balance_of(&b"bob".to_vec()), 5);
    assert_eq!(b.balance_of(&b"eve".to_vec()), 0);
}

#[test]
fn mint_refused_on_bad_signature_or_message() {
    let mut b = StellarEthBridge::new();
    assert!(!b.mint_inbound(b"tx".to_vec(), &message(b"bob", 5, 1), false));
    assert!(!b.is_processed(&b"tx".to_vec()));
    assert!(!b.mint_inbound(b"tx".to_vec(), &[1u8, 2, 3].to_vec(), true));
    assert!(!b.mint_inbound(b"tx".to_vec(), &message(b"bob", 0, 1), true));
    assert!(!b.is_processed(&b"tx".to_vec()));
    assert_eq!(b.balance_of(&b"bob".to_vec()), 0);
}

#[test]
fn parse_message_decodes_fields() {
    let e = parse_message(&message(b"0xabc", 123456789, 42)).unwrap();
    assert_eq!(e.user, b"0xabc".to_vec());
    assert_eq!(e.amount, 123456789);
    assert_eq!(e.nonce, 42);
    let e = parse_message(&message(b"", i128::MAX, u64::MAX)).unwrap();
    assert_eq!(e.user, Vec::<u8>::new());
    assert_eq!(e.amount, i128::MAX);
    assert_eq!(e.nonce, u64::MAX);
    let mut raw = vec![0u8, 0, 0, 1, 0x41];
    raw.extend_from_slice(&[0u8; 14]);
    raw.extend_from_slice(&[1u8, 0]);
    raw.extend_from_slice(&[0u8; 7]);
    raw.push(2);
    assert_eq!(raw.len(), 29);
    let e = parse_message(&raw).unwrap();
    assert_eq!(e.user, vec![0x41u8]);
    assert_eq!(e.amount, 256);
    assert_eq!(e.nonce, 2);
}

#[test]
fn parse_message_rejects_malformed() {
    assert!(parse_message(&vec![]).is_none());
    assert!(parse_message(&vec![0, 0, 0]).is_none());
    let mut m = message(b"bob", 5, 1);
    m.push(0);
    assert!(parse_message(&m).is_none());
    let m = message(b"bob", 5, 1);
    assert!(parse_message(&m[..m.len() - 1].to_vec()).is_none());
    assert!(parse_message(&message(b"bob", 0, 1)).is_none());
    assert!(parse_message(&message(b"bob", -1, 1)).is_none());
    assert!(parse_message(&message(b"bob", i128::MIN, 1)).is_none());
}

#[test]
fn encode_message_layout_and_round_trip() {
    let e = SwapEventData { user: b"bob".to_vec(), amount: 0x0102, nonce: 9 };
    let m = encode_message(&e).unwrap();
    assert_eq!(m, message(b"bob", 0x0102, 9));
    assert_eq!(&m[..4], &[0u8, 0, 0, 3]);
    assert_eq!(m.len(), 4 + 3 + 16 + 8);
    let d = parse_message(&m).unwrap();
    assert_eq!(d.user, e.user);
    assert_eq!(d.amount, e.amount);
    assert_eq!(d.nonce, e.nonce);
}

#[test]
fn encode_message_rejects_non_positive_amount() {
    assert!(encode_message(&SwapEventData { user: b"bob".to_vec(), amount: 0, nonce: 1 }).is_none());
    assert!(encode_message(&SwapEventData { user: vec![], amount: -3, nonce: 1 }).is_none());
}

#[test]
fn minted_event_is_the_encoded_one() {
    let mut b = StellarEthBridge::new();
    let e = b.swap_to_eth(b"carol".to_vec(), 42).unwrap();
    let m = encode_message(&e).unwrap();
    let mut other = StellarEthBridge::new();
    assert!(other.mint_inbound(b"relay-1".to_vec(), &m, true));
    assert_eq!(other.balance_of(&b"carol".to_vec()), 42);
}
