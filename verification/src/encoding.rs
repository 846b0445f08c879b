//! Little-endian encoding of bit patterns as bytes.

use vstd::prelude::*;
use crate::types::IntWidth;

verus! {

/// 256 to the power of `n`: the number of byte strings of length `n`.
pub open spec fn pow256(n: nat) -> nat
    decreases n,
{
    if n == 0 {
        1
    } else {
        256 * pow256((n - 1) as nat)
    }
}

/// The `n` low bytes of `x`, least significant first.
pub open spec fn le_bytes(x: nat, n: nat) -> Seq<u8>
    decreases n,
{
    if n == 0 {
        Seq::empty()
    } else {
        seq![(x % 256) as u8] + le_bytes(x / 256, (n - 1) as nat)
    }
}

/// The number that the bytes `s` spell, least significant first.
pub open spec fn le_value(s: Seq<u8>) -> nat
    decreases s.len(),
{
    if s.len() == 0 {
        0
    } else {
        s[0] as nat + 256 * le_value(s.drop_first())
    }
}

pub proof fn lemma_pow256_positive(n: nat)
    ensures
        pow256(n) > 0,
    decreases n,
{
    if n > 0 {
        lemma_pow256_positive((n - 1) as nat);
    }
}

pub proof fn lemma_pow256_monotonic(a: nat, b: nat)
    requires
        a <= b,
    ensures
        pow256(a) <= pow256(b),
    decreases b,
{
    if a < b {
        lemma_pow256_monotonic(a, (b - 1) as nat);
        lemma_pow256_positive((b - 1) as nat);
    }
}

/// The number of bit patterns of each integer width is the number of byte
/// strings of its size.
pub proof fn lemma_modulus_is_pow256(width: IntWidth)
    ensures
        width.modulus() == pow256(width.size()),
{
    reveal_with_fuel(pow256, 17);
}

pub proof fn lemma_le_bytes_len(x: nat, n: nat)
    ensures
        le_bytes(x, n).len() == n,
    decreases n,
{
    if n > 0 {
        lemma_le_bytes_len(x / 256, (n - 1) as nat);
    }
}

pub proof fn lemma_le_value_bound(s: Seq<u8>)
    ensures
        le_value(s) < pow256(s.len()),
    decreases s.len(),
{
    if s.len() > 0 {
        lemma_le_value_bound(s.drop_first());
    }
}

/// Decoding what was encoded gives the number back, where it fits in `n`
/// bytes.
pub proof fn lemma_le_value_of_bytes(x: nat, n: nat)
    requires
        x < pow256(n),
    ensures
        le_value(le_bytes(x, n)) == x,
    decreases n,
{
    if n > 0 {
        let rest = le_bytes(x / 256, (n - 1) as nat);
        let all = le_bytes(x, n);
        lemma_le_value_of_bytes(x / 256, (n - 1) as nat);
        lemma_le_bytes_len(x / 256, (n - 1) as nat);
        assert(all.drop_first() =~= rest);
    }
}

/// Encoding what was decoded gives the bytes back.
pub proof fn lemma_le_bytes_of_value(s: Seq<u8>)
    ensures
        le_bytes(le_value(s), s.len()) == s,
    decreases s.len(),
{
    if s.len() > 0 {
        lemma_le_bytes_of_value(s.drop_first());
    }
}

/// Writes the `n` low bytes of `bits`, least significant first.
pub fn encode_le(bits: u128, n: usize) -> (out: Vec<u8>)
    ensures
        out@ == le_bytes(bits as nat, n as nat),
{
    let mut out: Vec<u8> = Vec::new();
    let mut rest: u128 = bits;
    let mut i: usize = 0;
    while i < n
        invariant
            i <= n,
            out@ + le_bytes(rest as nat, (n - i) as nat) == le_bytes(bits as nat, n as nat),
        decreases n - i,
    {
        let byte: u8 = (rest % 256) as u8;
        out.push(byte);
        rest = rest / 256;
        i = i + 1;
    }
    out
}

/// Reads the number that at most 16 bytes spell, least significant first.
pub fn decode_le(bytes: &Vec<u8>) -> (bits: u128)
    requires
        bytes.len() <= 16,
    ensures
        bits == le_value(bytes@),
{
    let n: usize = bytes.len();
    let mut acc: u128 = 0;
    let mut i: usize = n;
    while i > 0
        invariant
            i <= n,
            n == bytes.len(),
            n <= 16,
            acc == le_value(bytes@.subrange(i as int, n as int)),
        decreases i,
    {
        proof {
            let suffix = bytes@.subrange(i as int, n as int);
            let longer = bytes@.subrange(i - 1, n as int);
            assert(longer.drop_first() =~= suffix);
            lemma_le_value_bound(longer);
            lemma_pow256_monotonic(longer.len(), 16);
            reveal_with_fuel(pow256, 17);
        }
        i = i - 1;
        acc = acc * 256 + bytes[i] as u128;
    }
    assert(bytes@.subrange(0, n as int) =~= bytes@);
    acc
}

} // verus!
