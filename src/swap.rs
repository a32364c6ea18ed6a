use vstd::prelude::*;

use soroban_sdk::Env;

use crate::byte_map::ByteMap;
use crate::bytes::{bytes_eq, copy_bytes};
use crate::host::{sha256, sha256_of};

verus! {

/// Where a swap stands. `Created` moves to exactly one of the two terminal phases.
#[derive(PartialEq, Eq, Structural, Clone, Copy, Debug)]
pub enum SwapPhase {
    Created,
    Redeemed,
    Refunded,
}

/// Why a swap operation was refused. A refused operation changes nothing.
#[derive(PartialEq, Eq, Structural, Clone, Copy, Debug)]
pub enum SwapError {
    AlreadyExists,
    InvalidAmount,
    DeadlineOverflow,
    NotFound,
    NotAuthorized,
    AlreadyRedeemed,
    AlreadyRefunded,
    TimeLockExpired,
    TimeLockNotExpired,
    InvalidSecret,
}

/// One hashed time-locked contract.
pub struct Swap {
    pub initiator: Vec<u8>,
    pub participant: Vec<u8>,
    pub amount: i128,
    pub hash_lock: Vec<u8>,
    /// Absolute deadline: redeem before it, refund from it on.
    pub time_lock: u64,
    pub secret: Option<Vec<u8>>,
    pub phase: SwapPhase,
}

/// The contents of a `Swap`.
pub struct SwapRecord {
    pub initiator: Seq<u8>,
    pub participant: Seq<u8>,
    pub amount: i128,
    pub hash_lock: Seq<u8>,
    pub time_lock: u64,
    pub secret: Option<Seq<u8>>,
    pub phase: SwapPhase,
}

impl View for Swap {
    type V = SwapRecord;

    open spec fn view(&self) -> SwapRecord {
        SwapRecord {
            initiator: self.initiator@,
            participant: self.participant@,
            amount: self.amount,
            hash_lock: self.hash_lock@,
            time_lock: self.time_lock,
            secret: match self.secret {
                Some(s) => Some(s@),
                None => None,
            },
            phase: self.phase,
        }
    }
}

impl Swap {
    pub fn redeemed(&self) -> (r: bool)
        ensures
            r == (self.phase == SwapPhase::Redeemed),
    {
        self.phase == SwapPhase::Redeemed
    }

    pub fn refunded(&self) -> (r: bool)
        ensures
            r == (self.phase == SwapPhase::Refunded),
    {
        self.phase == SwapPhase::Refunded
    }
}

/// A token movement that an accepted operation calls for.
pub struct Transfer {
    pub from: Vec<u8>,
    pub to: Vec<u8>,
    pub amount: i128,
}

/// Whether `t` moves `amount` from `from` to `to`.
pub open spec fn moves(t: Transfer, from: Seq<u8>, to: Seq<u8>, amount: i128) -> bool {
    t.from@ == from && t.to@ == to && t.amount == amount
}

/// The swap engine: the address that holds funds in custody, and the swaps by identifier.
pub struct USDCAtomicSwap {
    custody: Vec<u8>,
    swaps: ByteMap<Swap>,
}

/// Whether every swap that was terminal in `before` stands unchanged in `after`.
pub open spec fn terminal_kept(before: Map<Seq<u8>, SwapRecord>, after: Map<Seq<u8>, SwapRecord>) -> bool {
    forall|id: Seq<u8>|
        #[trigger] before.contains_key(id) ==> after.contains_key(id) && (before[id].phase
            != SwapPhase::Created ==> after[id] == before[id])
}

impl USDCAtomicSwap {
    /// The swaps by identifier.
    pub closed spec fn swaps(&self) -> Map<Seq<u8>, SwapRecord> {
        self.swaps@.map_values(|s: Swap| s@)
    }

    /// The custody address.
    pub closed spec fn custody(&self) -> Seq<u8> {
        self.custody@
    }

    pub closed spec fn wf(&self) -> bool {
        self.swaps.wf()
    }

    /// Which error `initiate_swap` gives, if any.
    pub open spec fn initiate_error(&self, swap_id: Seq<u8>, amount: i128, time_lock: u64, now: u64) -> Option<SwapError> {
        if self.swaps().contains_key(swap_id) {
            Some(SwapError::AlreadyExists)
        } else if amount <= 0 {
            Some(SwapError::InvalidAmount)
        } else if now + time_lock > u64::MAX {
            Some(SwapError::DeadlineOverflow)
        } else {
            None
        }
    }

    /// Which error redeeming swap `swap_id` gives, if any, where `digest` is
    /// the hash of the offered secret.
    pub open spec fn redeem_error(&self, swap_id: Seq<u8>, caller: Seq<u8>, digest: Seq<u8>, now: u64) -> Option<SwapError> {
        if !self.swaps().contains_key(swap_id) {
            Some(SwapError::NotFound)
        } else {
            let s = self.swaps()[swap_id];
            if caller != s.participant {
                Some(SwapError::NotAuthorized)
            } else if s.phase == SwapPhase::Redeemed {
                Some(SwapError::AlreadyRedeemed)
            } else if s.phase == SwapPhase::Refunded {
                Some(SwapError::AlreadyRefunded)
            } else if now >= s.time_lock {
                Some(SwapError::TimeLockExpired)
            } else if digest != s.hash_lock {
                Some(SwapError::InvalidSecret)
            } else {
                None
            }
        }
    }

    /// Which error refunding swap `swap_id` gives, if any.
    pub open spec fn refund_error(&self, swap_id: Seq<u8>, caller: Seq<u8>, now: u64) -> Option<SwapError> {
        if !self.swaps().contains_key(swap_id) {
            Some(SwapError::NotFound)
        } else {
            let s = self.swaps()[swap_id];
            if caller != s.initiator {
                Some(SwapError::NotAuthorized)
            } else if s.phase == SwapPhase::Redeemed {
                Some(SwapError::AlreadyRedeemed)
            } else if s.phase == SwapPhase::Refunded {
                Some(SwapError::AlreadyRefunded)
            } else if now < s.time_lock {
                Some(SwapError::TimeLockNotExpired)
            } else {
                None
            }
        }
    }

    /// An engine with no swaps, holding funds at `custody`.
    pub fn new(custody: Vec<u8>) -> (r: Self)
        ensures
            r.wf(),
            r.custody() == custody@,
            r.swaps() == Map::<Seq<u8>, SwapRecord>::empty(),
    {
        let r = USDCAtomicSwap { custody, swaps: ByteMap::new() };
        assert(r.swaps() =~= Map::<Seq<u8>, SwapRecord>::empty());
        r
    }

    /// Opens swap `swap_id` at time `now`: `initiator` locks `amount` for
    /// `participant`, redeemable with a secret hashing to `hash_lock` until
    /// `now + time_lock`. Returns the transfer into custody.
    pub fn initiate_swap(
        &mut self,
        swap_id: Vec<u8>,
        initiator: Vec<u8>,
        participant: Vec<u8>,
        amount: i128,
        hash_lock: Vec<u8>,
        time_lock: u64,
        now: u64,
    ) -> (r: Result<Transfer, SwapError>)
        requires
            old(self).wf(),
        ensures
            final(self).wf(),
            final(self).custody() == old(self).custody(),
            terminal_kept(old(self).swaps(), final(self).swaps()),
            r.is_err() == old(self).initiate_error(swap_id@, amount, time_lock, now).is_some(),
            r matches Err(e) ==> old(self).initiate_error(swap_id@, amount, time_lock, now) == Some(e)
                && final(self).swaps() == old(self).swaps(),
            r matches Ok(t) ==> moves(t, initiator@, old(self).custody(), amount)
                && final(self).swaps() == old(self).swaps().insert(
                swap_id@,
                SwapRecord {
                    initiator: initiator@,
                    participant: participant@,
                    amount,
                    hash_lock: hash_lock@,
                    time_lock: (now + time_lock) as u64,
                    secret: None,
                    phase: SwapPhase::Created,
                },
            ),
    {
        if self.swaps.contains(&swap_id) {
            return Err(SwapError::AlreadyExists);
        }
        if amount <= 0 {
            return Err(SwapError::InvalidAmount);
        }
        if now > u64::MAX - time_lock {
            return Err(SwapError::DeadlineOverflow);
        }
        let from = copy_bytes(&initiator);
        let to = copy_bytes(&self.custody);
        let swap = Swap {
            initiator,
            participant,
            amount,
            hash_lock,
            time_lock: now + time_lock,
            secret: None,
            phase: SwapPhase::Created,
        };
        let ghost key = swap_id@;
        let ghost sv = swap@;
        self.swaps.insert(swap_id, swap);
        assert(self.swaps() =~= old(self).swaps().insert(key, sv));
        Ok(Transfer { from, to, amount })
    }

    /// Redeems swap `swap_id` for `caller` at time `now`, where `digest` is the
    /// SHA-256 digest of `secret`. Accepted when the swap exists, `caller` is its
    /// participant, it is still open, `now` is before its deadline and `digest`
    /// matches its hash lock; then the secret is recorded, the swap becomes
    /// redeemed, and the transfer from custody to the participant is returned.
    pub fn redeem_with_digest(
        &mut self,
        swap_id: &Vec<u8>,
        caller: &Vec<u8>,
        secret: Vec<u8>,
        digest: &Vec<u8>,
        now: u64,
    ) -> (r: Result<Transfer, SwapError>)
        requires
            old(self).wf(),
        ensures
            final(self).wf(),
            final(self).custody() == old(self).custody(),
            terminal_kept(old(self).swaps(), final(self).swaps()),
            r.is_ok() == ({
                let s = old(self).swaps()[swap_id@];
                &&& old(self).swaps().contains_key(swap_id@)
                &&& digest@ == s.hash_lock
                &&& now < s.time_lock
                &&& caller@ == s.participant
                &&& s.phase == SwapPhase::Created
            }),
            r.is_err() == old(self).redeem_error(swap_id@, caller@, digest@, now).is_some(),
            r matches Err(e) ==> old(self).redeem_error(swap_id@, caller@, digest@, now) == Some(e)
                && final(self).swaps() == old(self).swaps(),
            r matches Ok(t) ==> {
                let s = old(self).swaps()[swap_id@];
                &&& moves(t, old(self).custody(), s.participant, s.amount)
                &&& final(self).swaps() == old(self).swaps().insert(
                    swap_id@,
                    SwapRecord { secret: Some(secret@), phase: SwapPhase::Redeemed, ..s },
                )
            },
    {
        let (participant, amount, new_swap) = match self.swaps.get(swap_id) {
            None => return Err(SwapError::NotFound),
            Some(s) => {
                if !bytes_eq(caller, &s.participant) {
                    return Err(SwapError::NotAuthorized);
                }
                if s.phase == SwapPhase::Redeemed {
                    return Err(SwapError::AlreadyRedeemed);
                }
                if s.phase == SwapPhase::Refunded {
                    return Err(SwapError::AlreadyRefunded);
                }
                if now >= s.time_lock {
                    return Err(SwapError::TimeLockExpired);
                }
                if !bytes_eq(digest, &s.hash_lock) {
                    return Err(SwapError::InvalidSecret);
                }
                let new_swap = Swap {
                    initiator: copy_bytes(&s.initiator),
                    participant: copy_bytes(&s.participant),
                    amount: s.amount,
                    hash_lock: copy_bytes(&s.hash_lock),
                    time_lock: s.time_lock,
                    secret: Some(secret),
                    phase: SwapPhase::Redeemed,
                };
                (copy_bytes(&s.participant), s.amount, new_swap)
            },
        };
        let ghost sv = new_swap@;
        self.swaps.insert(copy_bytes(swap_id), new_swap);
        assert(self.swaps() =~= old(self).swaps().insert(swap_id@, sv));
        Ok(Transfer { from: copy_bytes(&self.custody), to: participant, amount })
    }

    /// Redeems swap `swap_id` with `secret`, hashing it with SHA-256 on the
    /// host, and proceeds as `redeem_with_digest`.
    pub fn redeem(
        &mut self,
        env: &Env,
        swap_id: &Vec<u8>,
        caller: &Vec<u8>,
        secret: Vec<u8>,
        now: u64,
    ) -> (r: Result<Transfer, SwapError>)
        requires
            old(self).wf(),
        ensures
            final(self).wf(),
            final(self).custody() == old(self).custody(),
            terminal_kept(old(self).swaps(), final(self).swaps()),
            r.is_err() == old(self).redeem_error(swap_id@, caller@, sha256_of(secret@), now).is_some(),
            r matches Err(e) ==> old(self).redeem_error(swap_id@, caller@, sha256_of(secret@), now)
                == Some(e) && final(self).swaps() == old(self).swaps(),
            r matches Ok(t) ==> {
                let s = old(self).swaps()[swap_id@];
                &&& moves(t, old(self).custody(), s.participant, s.amount)
                &&& final(self).swaps() == old(self).swaps().insert(
                    swap_id@,
                    SwapRecord { secret: Some(secret@), phase: SwapPhase::Redeemed, ..s },
                )
            },
    {
        let digest = sha256(env, &secret);
        self.redeem_with_digest(swap_id, caller, secret, &digest, now)
    }

    /// Refunds swap `swap_id` to `caller` at time `now`. Accepted when the swap
    /// exists, `caller` is its initiator, it is still open, and its deadline
    /// has been reached; then the swap becomes refunded and the transfer from
    /// custody back to the initiator is returned.
    pub fn refund(&mut self, swap_id: &Vec<u8>, caller: &Vec<u8>, now: u64) -> (r: Result<Transfer, SwapError>)
        requires
            old(self).wf(),
        ensures
            final(self).wf(),
            final(self).custody() == old(self).custody(),
            terminal_kept(old(self).swaps(), final(self).swaps()),
            r.is_ok() == ({
                let s = old(self).swaps()[swap_id@];
                &&& old(self).swaps().contains_key(swap_id@)
                &&& now >= s.time_lock
                &&& caller@ == s.initiator
                &&& s.phase == SwapPhase::Created
            }),
            r.is_err() == old(self).refund_error(swap_id@, caller@, now).is_some(),
            r matches Err(e) ==> old(self).refund_error(swap_id@, caller@, now) == Some(e)
                && final(self).swaps() == old(self).swaps(),
            r matches Ok(t) ==> {
                let s = old(self).swaps()[swap_id@];
                &&& moves(t, old(self).custody(), s.initiator, s.amount)
                &&& final(self).swaps() == old(self).swaps().insert(
                    swap_id@,
                    SwapRecord { phase: SwapPhase::Refunded, ..s },
                )
            },
    {
        let (initiator, amount, new_swap) = match self.swaps.get(swap_id) {
            None => return Err(SwapError::NotFound),
            Some(s) => {
                if !bytes_eq(caller, &s.initiator) {
                    return Err(SwapError::NotAuthorized);
                }
                if s.phase == SwapPhase::Redeemed {
                    return Err(SwapError::AlreadyRedeemed);
                }
                if s.phase == SwapPhase::Refunded {
                    return Err(SwapError::AlreadyRefunded);
                }
                if now < s.time_lock {
                    return Err(SwapError::TimeLockNotExpired);
                }
                let secret = match &s.secret {
                    Some(x) => Some(copy_bytes(x)),
                    None => None,
                };
                let new_swap = Swap {
                    initiator: copy_bytes(&s.initiator),
                    participant: copy_bytes(&s.participant),
                    amount: s.amount,
                    hash_lock: copy_bytes(&s.hash_lock),
                    time_lock: s.time_lock,
                    secret,
                    phase: SwapPhase::Refunded,
                };
                (copy_bytes(&s.initiator), s.amount, new_swap)
            },
        };
        let ghost sv = new_swap@;
        self.swaps.insert(copy_bytes(swap_id), new_swap);
        assert(self.swaps() =~= old(self).swaps().insert(swap_id@, sv));
        Ok(Transfer { from: copy_bytes(&self.custody), to: initiator, amount })
    }

    /// The swap stored under `swap_id`.
    pub fn get_swap(&self, swap_id: &Vec<u8>) -> (r: Result<&Swap, SwapError>)
        requires
            self.wf(),
        ensures
            r.is_err() == !self.swaps().contains_key(swap_id@),
            r matches Err(e) ==> e == SwapError::NotFound,
            r matches Ok(s) ==> s@ == self.swaps()[swap_id@],
    {
        match self.swaps.get(swap_id) {
            Some(s) => Ok(s),
            None => Err(SwapError::NotFound),
        }
    }
}

/// A redeemed or refunded swap never changes again: across two steps that
/// each keep terminal swaps (as `initiate_swap`, `redeem` and `refund` all
/// ensure), it stands unchanged, so it never reaches the other terminal phase.
pub proof fn lemma_terminal_phase_stays(
    a: Map<Seq<u8>, SwapRecord>,
    b: Map<Seq<u8>, SwapRecord>,
    c: Map<Seq<u8>, SwapRecord>,
    swap_id: Seq<u8>,
)
    requires
        terminal_kept(a, b),
        terminal_kept(b, c),
        a.contains_key(swap_id),
        a[swap_id].phase != SwapPhase::Created,
    ensures
        c.contains_key(swap_id),
        c[swap_id] == a[swap_id],
        terminal_kept(a, c),
{
    assert(b.contains_key(swap_id));
}

} // verus!
