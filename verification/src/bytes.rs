//! Little-endian integers as byte sequences.

use vstd::arithmetic::div_mod::{lemma_breakdown, lemma_small_mod};
use vstd::prelude::*;

verus! {

/// The natural number that `s` encodes, least significant byte first.
pub open spec fn le_value(s: Seq<u8>) -> nat
    decreases s.len(),
{
    if s.len() == 0 {
        0
    } else {
        s[0] as nat + 256 * le_value(s.drop_first())
    }
}

/// `256^n`.
pub open spec fn pow256(n: nat) -> nat
    decreases n,
{
    if n == 0 {
        1
    } else {
        256 * pow256((n - 1) as nat)
    }
}

/// The `n` low bytes of `x`, least significant byte first.
pub open spec fn le_bytes(x: nat, n: nat) -> Seq<u8>
    decreases n,
{
    if n == 0 {
        Seq::empty()
    } else {
        seq![(x % 256) as u8] + le_bytes(x / 256, (n - 1) as nat)
    }
}

/// The eight bytes that encode `x`, least significant byte first.
pub open spec fn u64_le_bytes(x: u64) -> Seq<u8> {
    le_bytes(x as nat, 8)
}

/// A value below `256^len` for every sequence of `len` bytes.
pub proof fn lemma_le_value_bound(s: Seq<u8>)
    ensures
        le_value(s) < pow256(s.len()),
    decreases s.len(),
{
    if s.len() > 0 {
        lemma_le_value_bound(s.drop_first());
    }
}

/// `le_bytes(x, n)` has `n` bytes, and they encode `x` modulo `256^n`.
pub proof fn lemma_le_value_of_le_bytes(x: nat, n: nat)
    ensures
        le_bytes(x, n).len() == n,
        pow256(n) > 0,
        le_value(le_bytes(x, n)) == x % pow256(n),
    decreases n,
{
    if n > 0 {
        let rest = le_bytes(x / 256, (n - 1) as nat);
        lemma_le_value_of_le_bytes(x / 256, (n - 1) as nat);
        assert(le_bytes(x, n).drop_first() =~= rest);
        lemma_breakdown(x as int, 256, pow256((n - 1) as nat) as int);
    }
}

/// Decoding the eight bytes of `x` gives `x` back.
pub proof fn lemma_le_value_of_u64_le_bytes(x: u64)
    ensures
        u64_le_bytes(x).len() == 8,
        le_value(u64_le_bytes(x)) == x,
{
    lemma_le_value_of_le_bytes(x as nat, 8);
    assert(pow256(8) == 0x1_0000_0000_0000_0000) by {
        reveal_with_fuel(pow256, 9);
    }
    lemma_small_mod(x as nat, pow256(8));
}

/// Reads eight bytes as an unsigned integer, least significant byte first.
pub fn u64_from_le_bytes(b: &[u8; 8]) -> (v: u64)
    ensures
        v as nat == le_value(b@),
{
    let mut acc: u64 = 0;
    let mut i: usize = 8;
    while i > 0
        invariant
            i <= 8,
            acc as nat == le_value(b@.subrange(i as int, 8)),
        decreases i,
    {
        proof {
            let tail = b@.subrange(i as int, 8);
            let next = b@.subrange(i as int - 1, 8);
            assert(next.drop_first() =~= tail);
            lemma_le_value_bound(tail);
            assert(pow256(tail.len()) <= 0x100_0000_0000_0000) by {
                reveal_with_fuel(pow256, 9);
            }
        }
        i = i - 1;
        acc = acc * 256 + b[i] as u64;
    }
    assert(b@.subrange(0, 8) =~= b@);
    acc
}

} // verus!
