use vstd::prelude::*;

verus! {

/// Length of one serialized base-field element.
pub const FP_LEN: usize = 48;

/// The base-field modulus of BLS12-381, as 48 big-endian bytes.
pub open spec fn fp_modulus() -> Seq<u8> {
    seq![0x1au8, 0x01u8, 0x11u8, 0xeau8, 0x39u8, 0x7fu8, 0xe6u8, 0x9au8, 0x4bu8, 0x1bu8, 0xa7u8, 0xb6u8, 0x43u8, 0x4bu8, 0xacu8, 0xd7u8, 0x64u8, 0x77u8, 0x4bu8, 0x84u8, 0xf3u8, 0x85u8, 0x12u8, 0xbfu8, 0x67u8, 0x30u8, 0xd2u8, 0xa0u8, 0xf6u8, 0xb0u8, 0xf6u8, 0x24u8, 0x1eu8, 0xabu8, 0xffu8, 0xfeu8, 0xb1u8, 0x53u8, 0xffu8, 0xffu8, 0xb9u8, 0xfeu8, 0xffu8, 0xffu8, 0xffu8, 0xffu8, 0xaau8, 0xabu8]
}

pub fn fp_modulus_bytes() -> (r: Vec<u8>)
    ensures
        r@ == fp_modulus(),
{
    let v: Vec<u8> = vec![0x1au8, 0x01u8, 0x11u8, 0xeau8, 0x39u8, 0x7fu8, 0xe6u8, 0x9au8, 0x4bu8, 0x1bu8, 0xa7u8, 0xb6u8, 0x43u8, 0x4bu8, 0xacu8, 0xd7u8, 0x64u8, 0x77u8, 0x4bu8, 0x84u8, 0xf3u8, 0x85u8, 0x12u8, 0xbfu8, 0x67u8, 0x30u8, 0xd2u8, 0xa0u8, 0xf6u8, 0xb0u8, 0xf6u8, 0x24u8, 0x1eu8, 0xabu8, 0xffu8, 0xfeu8, 0xb1u8, 0x53u8, 0xffu8, 0xffu8, 0xb9u8, 0xfeu8, 0xffu8, 0xffu8, 0xffu8, 0xffu8, 0xaau8, 0xabu8];
    assert(v@ =~= fp_modulus());
    v
}

/// Whether `a` comes strictly before `b` in lexicographic order; for strings
/// of one length, whether `a` is the smaller big-endian number.
pub open spec fn lex_lt(a: Seq<u8>, b: Seq<u8>) -> bool
    decreases a.len(),
{
    if a.len() == 0 || b.len() == 0 {
        false
    } else if a[0] != b[0] {
        a[0] < b[0]
    } else {
        lex_lt(a.drop_first(), b.drop_first())
    }
}

/// Whether a serialized uncompressed curve point (96 or 192 bytes) is well
/// encoded: either the point at infinity (first byte 0x40, all else zero) or
/// no flag bits set and every 48-byte coordinate below the field modulus.
pub open spec fn point_encoding_ok(p: Seq<u8>) -> bool {
    if p.len() != 96 && p.len() != 192 {
        false
    } else if p[0] & 0xe0u8 == 0x40u8 {
        p[0] == 0x40u8 && forall|i: int| 1 <= i < p.len() ==> p[i] == 0u8
    } else {
        p[0] & 0xe0u8 == 0u8 && forall|k: int|
            0 <= k < p.len() / 48 ==> #[trigger] lex_lt(p.subrange(48 * k, 48 * k + 48), fp_modulus())
    }
}

/// Compares `a[start .. start + b.len()]` with `b` lexicographically.
fn lex_less_at(a: &Vec<u8>, start: usize, b: &Vec<u8>) -> (r: bool)
    requires
        start + b@.len() <= a@.len(),
    ensures
        r == lex_lt(a@.subrange(start as int, start + b@.len()), b@),
{
    let alen = a.len();
    let n = b.len();
    let end = start + n;
    assert(b@.subrange(0, n as int) =~= b@);
    let mut i: usize = 0;
    while i < n
        invariant
            n == b@.len(),
            end == start + n,
            end <= a@.len(),
            i <= n,
            lex_lt(a@.subrange(start as int, end as int), b@) == lex_lt(
                a@.subrange(start + i, end as int),
                b@.subrange(i as int, n as int),
            ),
        decreases n - i,
    {
        let x = a[start + i];
        let y = b[i];
        let ghost sa = a@.subrange(start + i, end as int);
        let ghost sb = b@.subrange(i as int, n as int);
        assert(sa[0] == x && sb[0] == y);
        if x != y {
            return x < y;
        }
        assert(sa.drop_first() =~= a@.subrange(start + i + 1, end as int));
        assert(sb.drop_first() =~= b@.subrange(i + 1, n as int));
        i = i + 1;
    }
    assert(a@.subrange(start + i, end as int).len() == 0);
    false
}

/// Checks `point_encoding_ok`.
pub fn check_point_encoding(p: &Vec<u8>) -> (r: bool)
    ensures
        r == point_encoding_ok(p@),
{
    let len = p.len();
    if len != 96 && len != 192 {
        return false;
    }
    let flags = p[0] & 0xe0u8;
    if flags == 0x40u8 {
        if p[0] != 0x40u8 {
            return false;
        }
        let mut i: usize = 1;
        while i < len
            invariant
                len == p@.len(),
                len == 96 || len == 192,
                p@[0] & 0xe0u8 == 0x40u8,
                p@[0] == 0x40u8,
                1 <= i <= len,
                forall|j: int| 1 <= j < i ==> p@[j] == 0u8,
            decreases len - i,
        {
            if p[i] != 0u8 {
                assert(p@[i as int] != 0u8);
                return false;
            }
            i = i + 1;
        }
        true
    } else if flags != 0u8 {
        false
    } else {
        let modulus = fp_modulus_bytes();
        let count = len / FP_LEN;
        let mut k: usize = 0;
        while k < count
            invariant
                len == p@.len(),
                len == 96 || len == 192,
                p@[0] & 0xe0u8 == 0u8,
                count == len / 48,
                modulus@ == fp_modulus(),
                modulus@.len() == 48,
                k <= count,
                forall|j: int| 0 <= j < k ==> #[trigger] lex_lt(p@.subrange(48 * j, 48 * j + 48), fp_modulus()),
            decreases count - k,
        {
            assert(48 * k + 48 <= len) by (nonlinear_arith)
                requires
                    k < count,
                    count == len / 48,
            ;
            let below = lex_less_at(p, FP_LEN * k, &modulus);
            assert(below == lex_lt(p@.subrange(48 * k as int, 48 * k as int + 48), fp_modulus()));
            if !below {
                return false;
            }
            k = k + 1;
        }
        true
    }
}

} // verus!
