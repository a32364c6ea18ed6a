use vstd::prelude::*;

use crate::bytes::{be_bytes, be_value, lemma_be_round_trip, lemma_be_value_bound, pow256, read_be, write_be};

verus! {

/// Width of the user-length prefix of an event message.
pub const USER_LEN_WIDTH: usize = 4;

/// Width of the amount field of an event message.
pub const AMOUNT_WIDTH: usize = 16;

/// Width of the nonce field of an event message.
pub const NONCE_WIDTH: usize = 8;

/// The largest amount an event may carry: `i128::MAX`.
pub open spec fn max_amount() -> nat {
    0x7fff_ffff_ffff_ffff_ffff_ffff_ffff_ffffnat
}

/// A record of one cross-chain transfer: who, how much, and its sequence number.
pub struct SwapEventData {
    pub user: Vec<u8>,
    pub amount: i128,
    pub nonce: u64,
}

/// The event a message encodes, as (user, amount, nonce), if it is well formed.
///
/// The encoding is `len(user)` as 4 big-endian bytes, then `user`, then the
/// amount as 16 big-endian bytes, then the nonce as 8 big-endian bytes. The
/// amount must lie in `1 ..= i128::MAX`; the message must end after the nonce.
pub open spec fn decode_event(m: Seq<u8>) -> Option<(Seq<u8>, int, int)> {
    if m.len() < 4 {
        None
    } else {
        let n = be_value(m.subrange(0, 4)) as int;
        if m.len() != 4 + n + 24 {
            None
        } else {
            let amount = be_value(m.subrange(4 + n, 20 + n)) as int;
            if amount == 0 || amount > max_amount() {
                None
            } else {
                Some((m.subrange(4, 4 + n), amount, be_value(m.subrange(20 + n, 28 + n)) as int))
            }
        }
    }
}

/// Whether `e` is the event that `m` decodes to.
pub open spec fn decodes_to(m: Seq<u8>, e: SwapEventData) -> bool {
    decode_event(m) == Some((e.user@, e.amount as int, e.nonce as int))
}

fn copy_range(b: &Vec<u8>, start: usize, end: usize) -> (r: Vec<u8>)
    requires
        start <= end <= b@.len(),
    ensures
        r@ == b@.subrange(start as int, end as int),
{
    let mut r: Vec<u8> = Vec::new();
    let mut i: usize = start;
    while i < end
        invariant
            start <= i <= end <= b@.len(),
            r@ == b@.subrange(start as int, i as int),
        decreases end - i,
    {
        r.push(b[i]);
        assert(b@.subrange(start as int, i + 1) =~= b@.subrange(start as int, i as int).push(b@[i as int]));
        i = i + 1;
    }
    r
}

/// Decodes an event message; `None` when it is not well formed.
pub fn parse_message(message: &Vec<u8>) -> (r: Option<SwapEventData>)
    ensures
        r.is_none() == decode_event(message@).is_none(),
        r matches Some(e) ==> decodes_to(message@, e),
{
    let len = message.len();
    if len < USER_LEN_WIDTH {
        return None;
    }
    let n = read_be(message, 0, USER_LEN_WIDTH);
    proof {
        lemma_be_value_bound(message@.subrange(0, 4));
        reveal_with_fuel(pow256, 5);
    }
    if len as u128 != 28 + n {
        return None;
    }
    let n = n as usize;
    let amount = read_be(message, 4 + n, AMOUNT_WIDTH);
    if amount == 0 || amount > 0x7fff_ffff_ffff_ffff_ffff_ffff_ffff_ffff {
        return None;
    }
    let nonce = read_be(message, 20 + n, NONCE_WIDTH);
    proof {
        lemma_be_value_bound(message@.subrange(20 + n, 28 + n));
        reveal_with_fuel(pow256, 9);
    }
    let user = copy_range(message, 4, 4 + n);
    Some(SwapEventData { user, amount: amount as i128, nonce: nonce as u64 })
}

/// The message that encodes (user, amount, nonce); see `decode_event`.
pub open spec fn encode_event(user: Seq<u8>, amount: int, nonce: int) -> Seq<u8> {
    be_bytes(user.len(), 4) + user + be_bytes(amount as nat, 16) + be_bytes(nonce as nat, 8)
}

/// Whether (user, amount, nonce) can be encoded: the user's length fits the
/// prefix, the amount is positive and fits `i128`, the nonce fits `u64`.
pub open spec fn encodable(user: Seq<u8>, amount: int, nonce: int) -> bool {
    &&& user.len() < 0x1_0000_0000
    &&& 0 < amount <= max_amount()
    &&& 0 <= nonce <= u64::MAX
}

/// Decoding an encoded event gives the event back.
pub proof fn lemma_decode_encode(user: Seq<u8>, amount: int, nonce: int)
    requires
        encodable(user, amount, nonce),
    ensures
        decode_event(encode_event(user, amount, nonce)) == Some((user, amount, nonce)),
{
    let n = user.len() as int;
    reveal_with_fuel(pow256, 17);
    lemma_be_round_trip(n as nat, 4);
    lemma_be_round_trip(amount as nat, 16);
    lemma_be_round_trip(nonce as nat, 8);
    let m = encode_event(user, amount, nonce);
    assert(m.subrange(0, 4) =~= be_bytes(n as nat, 4));
    assert(m.subrange(4, 4 + n) =~= user);
    assert(m.subrange(4 + n, 20 + n) =~= be_bytes(amount as nat, 16));
    assert(m.subrange(20 + n, 28 + n) =~= be_bytes(nonce as nat, 8));
}

/// The encoding is injective: distinct encodable events have distinct messages.
pub proof fn lemma_encoding_injective(u1: Seq<u8>, a1: int, n1: int, u2: Seq<u8>, a2: int, n2: int)
    requires
        encodable(u1, a1, n1),
        encodable(u2, a2, n2),
        encode_event(u1, a1, n1) == encode_event(u2, a2, n2),
    ensures
        u1 == u2 && a1 == a2 && n1 == n2,
{
    lemma_decode_encode(u1, a1, n1);
    lemma_decode_encode(u2, a2, n2);
}

/// Encodes an event as a message; `None` when the user is too long for the
/// length prefix or the amount is not positive.
pub fn encode_message(event: &SwapEventData) -> (r: Option<Vec<u8>>)
    ensures
        r.is_some() == encodable(event.user@, event.amount as int, event.nonce as int),
        r matches Some(m) ==> m@ == encode_event(event.user@, event.amount as int, event.nonce as int)
            && decodes_to(m@, *event),
{
    let len = event.user.len();
    if len > 0xffff_ffff || event.amount <= 0 {
        return None;
    }
    let mut out: Vec<u8> = Vec::new();
    write_be(&mut out, len as u128, USER_LEN_WIDTH);
    let mut i: usize = 0;
    while i < len
        invariant
            len == event.user@.len(),
            i <= len,
            out@ == be_bytes(len as nat, 4) + event.user@.subrange(0, i as int),
        decreases len - i,
    {
        out.push(event.user[i]);
        assert(event.user@.subrange(0, i as int + 1) =~= event.user@.subrange(0, i as int).push(event.user@[i as int]));
        assert(out@ =~= be_bytes(len as nat, 4) + event.user@.subrange(0, i as int + 1));
        i = i + 1;
    }
    assert(event.user@.subrange(0, len as int) =~= event.user@);
    write_be(&mut out, event.amount as u128, AMOUNT_WIDTH);
    write_be(&mut out, event.nonce as u128, NONCE_WIDTH);
    proof {
        lemma_decode_encode(event.user@, event.amount as int, event.nonce as int);
    }
    Some(out)
}

} // verus!
