use vstd::prelude::*;

verus! {

/// Compares two byte strings for equality.
pub fn bytes_eq(a: &Vec<u8>, b: &Vec<u8>) -> (r: bool)
    ensures
        r == (a@ == b@),
{
    if a.len() != b.len() {
        return false;
    }
    let mut i: usize = 0;
    while i < a.len()
        invariant
            a@.len() == b@.len(),
            i <= a@.len(),
            a@.subrange(0, i as int) == b@.subrange(0, i as int),
        decreases a@.len() - i,
    {
        if a[i] != b[i] {
            assert(a@.subrange(0, i as int + 1)[i as int] != b@.subrange(0, i as int + 1)[i as int]);
            assert(a@[i as int] != b@[i as int]);
            return false;
        }
        assert(a@.subrange(0, i as int + 1) =~= a@.subrange(0, i as int).push(a@[i as int]));
        assert(b@.subrange(0, i as int + 1) =~= b@.subrange(0, i as int).push(b@[i as int]));
        i = i + 1;
    }
    assert(a@ =~= a@.subrange(0, a@.len() as int));
    assert(b@ =~= b@.subrange(0, b@.len() as int));
    true
}

/// Copies a byte string.
pub fn copy_bytes(a: &Vec<u8>) -> (r: Vec<u8>)
    ensures
        r@ == a@,
{
    let mut r: Vec<u8> = Vec::with_capacity(a.len());
    let mut i: usize = 0;
    while i < a.len()
        invariant
            i <= a@.len(),
            r@ == a@.subrange(0, i as int),
        decreases a@.len() - i,
    {
        r.push(a[i]);
        assert(a@.subrange(0, i as int + 1) =~= a@.subrange(0, i as int).push(a@[i as int]));
        i = i + 1;
    }
    assert(a@ =~= a@.subrange(0, a@.len() as int));
    r
}

/// The unsigned integer that a byte string holds, most significant byte first.
pub open spec fn be_value(b: Seq<u8>) -> nat
    decreases b.len(),
{
    if b.len() == 0 {
        0
    } else {
        be_value(b.drop_last()) * 256 + (b.last() as nat)
    }
}

/// A bound on the value of a byte string of a given length.
pub proof fn lemma_be_value_bound(b: Seq<u8>)
    ensures
        be_value(b) < pow256(b.len()),
    decreases b.len(),
{
    if b.len() > 0 {
        lemma_be_value_bound(b.drop_last());
        let p = pow256((b.len() - 1) as nat);
        let v = be_value(b.drop_last());
        assert(v * 256 + (b.last() as nat) < p * 256) by (nonlinear_arith)
            requires
                v < p,
                b.last() < 256,
        ;
    }
}

/// 256 raised to the power `n`.
pub open spec fn pow256(n: nat) -> nat
    decreases n,
{
    if n == 0 {
        1
    } else {
        pow256((n - 1) as nat) * 256
    }
}

/// Reads `len` bytes of `b` starting at `start` as a big-endian integer.
pub fn read_be(b: &Vec<u8>, start: usize, len: usize) -> (r: u128)
    requires
        len <= 16,
        start + len <= b@.len(),
    ensures
        r as nat == be_value(b@.subrange(start as int, start + len)),
{
    let n: usize = b.len();
    let mut v: u128 = 0;
    let mut i: usize = 0;
    while i < len
        invariant
            n == b@.len(),
            len <= 16,
            start + len <= b@.len(),
            i <= len,
            v as nat == be_value(b@.subrange(start as int, start + i)),
        decreases len - i,
    {
        let ghost prefix = b@.subrange(start as int, start + i);
        let ghost next = b@.subrange(start as int, start + i + 1);
        assert(next.drop_last() =~= prefix);
        proof {
            lemma_be_value_bound(prefix);
            lemma_pow256_le(i as nat);
        }
        assert((v as nat) * 256 + 255 < pow256(16)) by (nonlinear_arith)
            requires
                v < pow256(i as nat),
                pow256(i as nat) * 256 <= pow256(16),
        ;
        proof {
            reveal_with_fuel(pow256, 17);
        }
        assert(pow256(16) == 0x1_0000_0000_0000_0000_0000_0000_0000_0000nat);
        let byte = b[start + i];
        assert((v as nat) * 256 + (byte as nat) < 0x1_0000_0000_0000_0000_0000_0000_0000_0000nat);
        v = v * 256 + byte as u128;
        i = i + 1;
    }
    v
}

proof fn lemma_pow256_le(i: nat)
    requires
        i < 16,
    ensures
        pow256(i) * 256 <= pow256(16),
    decreases 16 - i,
{
    if i + 1 < 16 {
        lemma_pow256_le(i + 1);
        assert(pow256(i + 1) == pow256(i) * 256);
        assert(pow256(i) * 256 * 256 <= pow256(16));
        assert(pow256(i) * 256 <= pow256(i) * 256 * 256) by (nonlinear_arith);
    }
}

/// The `width` low bytes of `x`, most significant first.
pub open spec fn be_bytes(x: nat, width: nat) -> Seq<u8>
    decreases width,
{
    if width == 0 {
        Seq::empty()
    } else {
        be_bytes(x / 256, (width - 1) as nat).push((x % 256) as u8)
    }
}

/// Reading back `width` bytes written from a value that fits in them gives the value.
pub proof fn lemma_be_round_trip(x: nat, width: nat)
    requires
        x < pow256(width),
    ensures
        be_bytes(x, width).len() == width,
        be_value(be_bytes(x, width)) == x,
    decreases width,
{
    if width > 0 {
        let p = pow256((width - 1) as nat);
        assert(x / 256 < p) by (nonlinear_arith)
            requires
                x < p * 256,
        ;
        lemma_be_round_trip(x / 256, (width - 1) as nat);
        let b = be_bytes(x, width);
        assert(b.drop_last() =~= be_bytes(x / 256, (width - 1) as nat));
        assert((x / 256) * 256 + x % 256 == x) by (nonlinear_arith);
    }
}

/// Appends the `width` low bytes of `x` to `out`, most significant first.
pub fn write_be(out: &mut Vec<u8>, x: u128, width: usize)
    ensures
        final(out)@ == old(out)@ + be_bytes(x as nat, width as nat),
    decreases width,
{
    if width == 0 {
        assert(old(out)@ + be_bytes(x as nat, 0) =~= old(out)@);
        return;
    }
    write_be(out, x / 256, width - 1);
    out.push((x % 256) as u8);
    assert(old(out)@ + be_bytes(x as nat, width as nat) =~= old(out)@ + be_bytes((x / 256) as nat, (width - 1) as nat)
        + seq![(x % 256) as u8]);
    assert(out@ =~= old(out)@ + be_bytes(x as nat, width as nat));
}

} // verus!
