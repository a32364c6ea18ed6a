use vstd::prelude::*;

use soroban_sdk::Env;

use crate::byte_map::ByteMap;
use crate::bytes::copy_bytes;
use crate::codec::{decode_event, parse_message, SwapEventData};
use crate::host::{g1_negate, hash_to_g1, pairing_check};
use crate::signature::{
    check_g1_point, check_g2_point, g2_generator_bytes, signature_dst_bytes, signature_valid, PUBLIC_KEY_LEN,
    SIGNATURE_LEN,
};

verus! {

/// The bridge ledger: locked balances per user, the transactions already
/// minted from, and the nonce of the last outbound event.
pub struct StellarEthBridge {
    locked: ByteMap<i128>,
    processed: ByteMap<()>,
    nonce: u64,
}

/// A user's balance in a balance map; absent users hold zero.
pub open spec fn balance_in(m: Map<Seq<u8>, i128>, user: Seq<u8>) -> int {
    if m.contains_key(user) {
        m[user] as int
    } else {
        0
    }
}

impl StellarEthBridge {
    /// Locked balances of the users that have one.
    pub closed spec fn locked(&self) -> Map<Seq<u8>, i128> {
        self.locked@
    }

    /// Identifiers of the transactions already minted from.
    pub closed spec fn processed(&self) -> Set<Seq<u8>> {
        self.processed@.dom()
    }

    /// The nonce of the last outbound event; zero before the first.
    pub closed spec fn nonce(&self) -> u64 {
        self.nonce
    }

    pub open spec fn balance(&self, user: Seq<u8>) -> int {
        balance_in(self.locked(), user)
    }

    pub closed spec fn wf(&self) -> bool {
        &&& self.locked.wf()
        &&& self.processed.wf()
        &&& forall|u: Seq<u8>| #[trigger] self.locked@.contains_key(u) ==> self.locked@[u] >= 0
    }

    /// Whether a lock of `amount` for `user` is accepted: a positive amount
    /// whose new balance and new nonce fit their types.
    pub open spec fn lock_accepted(&self, user: Seq<u8>, amount: int) -> bool {
        &&& amount > 0
        &&& self.balance(user) + amount <= i128::MAX
        &&& self.nonce() < u64::MAX
    }

    /// Whether a mint of `message` under transaction `tx_id` is accepted,
    /// given whether its signature checked out.
    pub open spec fn mint_accepted(&self, tx_id: Seq<u8>, message: Seq<u8>, signature_ok: bool) -> bool {
        &&& !self.processed().contains(tx_id)
        &&& signature_ok
        &&& decode_event(message) matches Some((user, amount, _))
        &&& self.balance(user) + amount <= i128::MAX
    }

    /// What a call of `swap_to_eth(user, amount)` on `before` that left
    /// `after` and returned `r` does.
    pub open spec fn lock_outcome(before: &Self, after: &Self, user: Seq<u8>, amount: i128, r: Option<SwapEventData>) -> bool {
        &&& r.is_some() == before.lock_accepted(user, amount as int)
        &&& r matches Some(e) ==> {
            &&& e.user@ == user
            &&& e.amount == amount
            &&& e.nonce == before.nonce() + 1
            &&& after.locked() == before.locked().insert(user, (before.balance(user) + amount) as i128)
            &&& after.nonce() == before.nonce() + 1
            &&& after.processed() == before.processed()
        }
        &&& r.is_none() ==> {
            &&& after.locked() == before.locked()
            &&& after.nonce() == before.nonce()
            &&& after.processed() == before.processed()
        }
    }

    /// What a mint of `message` under `tx_id` on `before`, given the verdict
    /// `signature_ok`, that left `after` and returned `r` does.
    pub open spec fn mint_outcome(before: &Self, after: &Self, tx_id: Seq<u8>, message: Seq<u8>, signature_ok: bool, r: bool) -> bool {
        &&& r == before.mint_accepted(tx_id, message, signature_ok)
        &&& r ==> before.mint_effect(after, tx_id, message)
        &&& !r ==> *after == *before
    }

    /// The ledger after an accepted mint.
    pub open spec fn mint_effect(&self, after: &Self, tx_id: Seq<u8>, message: Seq<u8>) -> bool {
        let (user, amount, _) = decode_event(message).unwrap();
        &&& after.locked() == self.locked().insert(user, (self.balance(user) + amount) as i128)
        &&& after.processed() == self.processed().insert(tx_id)
        &&& after.nonce() == self.nonce()
    }

    /// An empty ledger: no balances, no processed transactions, nonce zero.
    pub fn new() -> (r: Self)
        ensures
            r.wf(),
            r.locked() == Map::<Seq<u8>, i128>::empty(),
            r.processed() == Set::<Seq<u8>>::empty(),
            r.nonce() == 0,
    {
        let r = StellarEthBridge { locked: ByteMap::new(), processed: ByteMap::new(), nonce: 0 };
        assert(r.processed() =~= Set::<Seq<u8>>::empty());
        r
    }

    /// The locked balance of `user`.
    pub fn balance_of(&self, user: &Vec<u8>) -> (r: i128)
        requires
            self.wf(),
        ensures
            r as int == self.balance(user@),
            r >= 0,
    {
        match self.locked.get(user) {
            Some(v) => *v,
            None => 0,
        }
    }

    /// The nonce of the last outbound event.
    pub fn current_nonce(&self) -> (r: u64)
        ensures
            r == self.nonce(),
    {
        self.nonce
    }

    /// Whether transaction `tx_id` has already been minted from.
    pub fn is_processed(&self, tx_id: &Vec<u8>) -> (r: bool)
        requires
            self.wf(),
        ensures
            r == self.processed().contains(tx_id@),
    {
        self.processed.contains(tx_id)
    }

    /// Verifies a BLS signature (signature in G1, public key in G2).
    /// A key or signature that is not a valid point (wrong length, bad encoding,
    /// off the curve, outside the subgroup) is rejected, never trapped on, and so
    /// is the identity as a key.
    pub fn verify_signature(env: &Env, public_key: &Vec<u8>, message: &Vec<u8>, signature: &Vec<u8>) -> (r: bool)
        ensures
            r == signature_valid(public_key@, message@, signature@),
            public_key@.len() != PUBLIC_KEY_LEN ==> !r,
            signature@.len() != SIGNATURE_LEN ==> !r,
    {
        if !check_g2_point(env, public_key) || public_key[0] == 0x40u8 || !check_g1_point(env, signature) {
            return false;
        }
        let generator = g2_generator_bytes();
        if !check_g2_point(env, &generator) {
            return false;
        }
        let dst = signature_dst_bytes();
        assert(dst@.len() == 43);
        let hashed = hash_to_g1(env, message, &dst);
        let negated = g1_negate(env, &hashed);
        pairing_check(env, signature, &generator, &negated, public_key)
    }

    /// Advances the nonce and returns its new value.
    fn increment_nonce(&mut self) -> (r: u64)
        requires
            old(self).nonce < u64::MAX,
        ensures
            r == old(self).nonce + 1,
            final(self).nonce == r,
            final(self).locked == old(self).locked,
            final(self).processed == old(self).processed,
    {
        self.nonce = self.nonce + 1;
        self.nonce
    }

    /// Locks `amount` for `user` and returns the outbound event, numbered with
    /// the next nonce. A non-positive amount, or one whose balance or nonce
    /// would overflow, is rejected and nothing changes.
    pub fn swap_to_eth(&mut self, user: Vec<u8>, amount: i128) -> (r: Option<SwapEventData>)
        requires
            old(self).wf(),
        ensures
            final(self).wf(),
            Self::lock_outcome(old(self), final(self), user@, amount, r),
            amount > 0 && old(self).balance(user@) + amount <= i128::MAX && old(self).nonce() < u64::MAX
                ==> final(self).balance(user@) == old(self).balance(user@) + amount
                && final(self).nonce() == old(self).nonce() + 1,
            amount <= 0 ==> r.is_none() && final(self).balance(user@) == old(self).balance(user@)
                && final(self).nonce() == old(self).nonce(),
    {
        if amount <= 0 {
            return None;
        }
        let current = self.balance_of(&user);
        if current > i128::MAX - amount || self.nonce == u64::MAX {
            return None;
        }
        let key = copy_bytes(&user);
        self.locked.insert(key, current + amount);
        let nonce = self.increment_nonce();
        Some(SwapEventData { user, amount, nonce })
    }

    /// Mints from an inbound transfer whose signature has been checked:
    /// accepted when `tx_id` is fresh, `signature_ok` holds, `message` decodes
    /// to an event, and the new balance fits. Then the event's amount is added
    /// to its user's balance and `tx_id` is recorded; otherwise nothing changes.
    pub fn mint_inbound(&mut self, tx_id: Vec<u8>, message: &Vec<u8>, signature_ok: bool) -> (r: bool)
        requires
            old(self).wf(),
        ensures
            final(self).wf(),
            Self::mint_outcome(old(self), final(self), tx_id@, message@, signature_ok, r),
            old(self).processed().contains(tx_id@) ==> !r && *final(self) == *old(self),
    {
        if self.processed.contains(&tx_id) || !signature_ok {
            return false;
        }
        let event = match parse_message(message) {
            Some(e) => e,
            None => return false,
        };
        let current = self.balance_of(&event.user);
        if current > i128::MAX - event.amount {
            return false;
        }
        self.locked.insert(event.user, current + event.amount);
        let ghost before = self.processed@;
        self.processed.insert(tx_id, ());
        assert(self.processed@.dom() =~= before.dom().insert(tx_id@));
        true
    }

    /// Mints from an inbound transfer: rejects a transaction already minted
    /// from before checking its signature, then verifies the BLS signature of
    /// `message` by `public_key` and proceeds as `mint_inbound`.
    pub fn swap_from_eth(
        &mut self,
        env: &Env,
        eth_tx_hash: Vec<u8>,
        public_key: &Vec<u8>,
        message: &Vec<u8>,
        signature: &Vec<u8>,
    ) -> (r: bool)
        requires
            old(self).wf(),
        ensures
            final(self).wf(),
            Self::mint_outcome(
                old(self),
                final(self),
                eth_tx_hash@,
                message@,
                signature_valid(public_key@, message@, signature@),
                r,
            ),
            old(self).processed().contains(eth_tx_hash@) ==> !r && *final(self) == *old(self),
    {
        if self.processed.contains(&eth_tx_hash) {
            return false;
        }
        let ok = Self::verify_signature(env, public_key, message, signature);
        self.mint_inbound(eth_tx_hash, message, ok)
    }
}

/// Successive accepted locks, by any users, are numbered consecutively: the
/// second event's nonce is the first's plus one, and the first's is one past
/// the nonce before it.
pub proof fn lemma_nonces_consecutive(
    b0: StellarEthBridge,
    b1: StellarEthBridge,
    b2: StellarEthBridge,
    user1: Seq<u8>,
    amount1: i128,
    e1: SwapEventData,
    user2: Seq<u8>,
    amount2: i128,
    e2: SwapEventData,
)
    requires
        StellarEthBridge::lock_outcome(&b0, &b1, user1, amount1, Some(e1)),
        StellarEthBridge::lock_outcome(&b1, &b2, user2, amount2, Some(e2)),
    ensures
        e1.nonce == b0.nonce() + 1,
        e2.nonce == e1.nonce + 1,
        b2.nonce() == e2.nonce,
{
}

/// An accepted mint adds the decoded amount to the decoded user's balance,
/// and a second mint under the same transaction identifier, with any message
/// and any signature verdict, is refused and changes nothing.
pub proof fn lemma_mint_once(
    b0: StellarEthBridge,
    b1: StellarEthBridge,
    b2: StellarEthBridge,
    tx_id: Seq<u8>,
    message: Seq<u8>,
    signature_ok: bool,
    message2: Seq<u8>,
    signature_ok2: bool,
    r2: bool,
)
    requires
        StellarEthBridge::mint_outcome(&b0, &b1, tx_id, message, signature_ok, true),
        StellarEthBridge::mint_outcome(&b1, &b2, tx_id, message2, signature_ok2, r2),
    ensures
        decode_event(message) matches Some((user, amount, _)) && b1.balance(user) == b0.balance(user)
            + amount,
        b1.processed().contains(tx_id),
        !r2,
        b2 == b1,
{
    let (user, amount, _) = decode_event(message).unwrap();
    assert(b1.locked().contains_key(user));
}

} // verus!
