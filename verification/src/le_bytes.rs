//! Little-endian integer encoding and decoding over byte sequences.

use vstd::prelude::*;

verus! {

/// `256^n`.
pub open spec fn pow256(n: nat) -> nat
    decreases n,
{
    if n == 0 {
        1
    } else {
        256 * pow256((n - 1) as nat)
    }
}

/// The unsigned value of a little-endian byte sequence.
pub open spec fn le_value(s: Seq<u8>) -> nat
    decreases s.len(),
{
    if s.len() == 0 {
        0
    } else {
        s[0] as nat + 256 * le_value(s.drop_first())
    }
}

/// The `n` low-order bytes of `x`, least significant first.
pub open spec fn le_bytes(x: nat, n: nat) -> Seq<u8>
    decreases n,
{
    if n == 0 {
        Seq::empty()
    } else {
        seq![(x % 256) as u8] + le_bytes(x / 256, (n - 1) as nat)
    }
}

/// The 8-byte little-endian encoding of a `u64`.
pub open spec fn u64_le(x: u64) -> Seq<u8> {
    le_bytes(x as nat, 8)
}

/// The 2-byte little-endian value `b0 + 256 * b1`.
pub open spec fn u16_le_value(b0: u8, b1: u8) -> u16 {
    (b0 as nat + 256 * b1 as nat) as u16
}

/// `256^8 == 2^64`.
pub proof fn lemma_pow256_8()
    ensures
        pow256(8) == 0x1_0000_0000_0000_0000,
{
    reveal_with_fuel(pow256, 9);
}

pub proof fn lemma_pow256_positive(n: nat)
    ensures
        pow256(n) > 0,
    decreases n,
{
    if n > 0 {
        lemma_pow256_positive((n - 1) as nat);
    }
}

/// A sequence of `n` bytes denotes a value below `256^n`.
pub proof fn lemma_le_value_bound(s: Seq<u8>)
    ensures
        le_value(s) < pow256(s.len()),
    decreases s.len(),
{
    if s.len() > 0 {
        lemma_le_value_bound(s.drop_first());
        assert(s.drop_first().len() == s.len() - 1);
    }
}

/// `le_bytes` has the requested length.
pub proof fn lemma_le_bytes_len(x: nat, n: nat)
    ensures
        le_bytes(x, n).len() == n,
    decreases n,
{
    if n > 0 {
        lemma_le_bytes_len(x / 256, (n - 1) as nat);
    }
}

/// Decoding what was encoded gives back the value modulo `256^n`.
pub proof fn lemma_le_roundtrip(x: nat, n: nat)
    ensures
        le_value(le_bytes(x, n)) == x % pow256(n),
    decreases n,
{
    if n > 0 {
        lemma_le_roundtrip(x / 256, (n - 1) as nat);
        lemma_le_bytes_len(x / 256, (n - 1) as nat);
        let s = le_bytes(x, n);
        assert(s.drop_first() =~= le_bytes(x / 256, (n - 1) as nat));
        lemma_pow256_positive((n - 1) as nat);
        vstd::arithmetic::div_mod::lemma_breakdown(x as int, 256, pow256((n - 1) as nat) as int);
    }
}

/// Encoding a `u64` in 8 bytes and decoding it again is the identity.
pub proof fn lemma_u64_le_roundtrip(x: u64)
    ensures
        u64_le(x).len() == 8,
        le_value(u64_le(x)) == x,
{
    lemma_le_bytes_len(x as nat, 8);
    lemma_le_roundtrip(x as nat, 8);
    lemma_pow256_8();
}

/// Step from the encoding of `i` bytes to `i + 1` bytes: the next byte is `(x / 256^i) % 256`.
pub proof fn lemma_le_bytes_snoc(x: nat, i: nat)
    ensures
        le_bytes(x, i + 1) =~= le_bytes(x, i).push(((x / pow256(i)) % 256) as u8),
    decreases i,
{
    if i > 0 {
        let j = (i - 1) as nat;
        lemma_le_bytes_snoc(x / 256, j);
        lemma_pow256_positive(j);
        vstd::arithmetic::div_mod::lemma_div_denominator(x as int, 256, pow256(j) as int);
        assert(pow256(i) == 256 * pow256(j));
        assert(le_bytes(x, i + 1) == seq![(x % 256) as u8] + le_bytes(x / 256, i));
        assert(le_bytes(x, i) == seq![(x % 256) as u8] + le_bytes(x / 256, j));
        assert(i == j + 1);
    } else {
        assert(pow256(0) == 1);
        assert(le_bytes(x, 1) == seq![(x % 256) as u8] + le_bytes(x / 256, 0));
    }
}

/// Read two little-endian bytes at `off`.
pub fn read_u16_le(data: &[u8], off: usize) -> (r: u16)
    requires
        off + 2 <= data@.len(),
    ensures
        r == u16_le_value(data@[off as int], data@[off + 1]),
        r as nat == le_value(data@.subrange(off as int, off + 2)),
{
    let lo = data[off] as u16;
    let hi = data[off + 1] as u16;
    let ghost s = data@.subrange(off as int, off + 2);
    proof {
        assert(s.drop_first().drop_first() =~= Seq::<u8>::empty());
        assert(le_value(s.drop_first()) == s.drop_first()[0] as nat + 256 * le_value(s.drop_first().drop_first()));
        assert(le_value(s) == s[0] as nat + 256 * le_value(s.drop_first()));
    }
    lo + hi * 256
}

/// Read eight little-endian bytes at `off`.
pub fn read_u64_le(data: &[u8], off: usize) -> (r: u64)
    requires
        off + 8 <= data@.len(),
    ensures
        r as nat == le_value(data@.subrange(off as int, off + 8)),
{
    let len = data.len();
    let mut v: u64 = 0;
    let mut i: usize = 8;
    while i > 0
        invariant
            0 <= i <= 8,
            len == data@.len(),
            off + 8 <= data@.len(),
            v as nat == le_value(data@.subrange(off + i, off + 8)),
        decreases i,
    {
        let ghost tail = data@.subrange(off + i, off + 8);
        let ghost next = data@.subrange(off + i - 1, off + 8);
        proof {
            assert(next.drop_first() =~= tail);
            assert(le_value(next) == next[0] as nat + 256 * le_value(tail));
            assert(next[0] == data@[off + i - 1]);
            lemma_le_value_bound(next);
            assert(pow256(next.len()) <= pow256(8)) by {
                lemma_pow256_monotone(next.len(), 8);
            }
            lemma_pow256_8();
        }
        i = i - 1;
        v = v * 256 + data[off + i] as u64;
    }
    v
}

pub proof fn lemma_pow256_monotone(a: nat, b: nat)
    requires
        a <= b,
    ensures
        pow256(a) <= pow256(b),
    decreases b,
{
    if a < b {
        lemma_pow256_monotone(a, (b - 1) as nat);
        lemma_pow256_positive((b - 1) as nat);
    }
}

/// Append the 8-byte little-endian encoding of `x`.
pub fn push_u64_le(out: &mut Vec<u8>, x: u64)
    ensures
        final(out)@ == old(out)@ + u64_le(x),
{
    let ghost start = out@;
    let mut rem: u64 = x;
    let mut i: usize = 0;
    assert(pow256(0) == 1);
    assert(out@ =~= start + le_bytes(x as nat, 0));
    while i < 8
        invariant
            0 <= i <= 8,
            rem as nat == x as nat / pow256(i as nat),
            out@ == start + le_bytes(x as nat, i as nat),
        decreases 8 - i,
    {
        proof {
            lemma_le_bytes_snoc(x as nat, i as nat);
            lemma_pow256_positive(i as nat);
            vstd::arithmetic::div_mod::lemma_div_denominator(x as int, pow256(i as nat) as int, 256);
            assert(pow256((i + 1) as nat) == pow256(i as nat) * 256);
        }
        out.push((rem % 256) as u8);
        rem = rem / 256;
        i = i + 1;
        proof {
            assert(out@ =~= start + le_bytes(x as nat, i as nat));
        }
    }
}

} // verus!
