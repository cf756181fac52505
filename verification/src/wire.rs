//! Little-endian byte strings.
//!
//! The durable memory codec stores integers as fixed-width little-endian
//! byte strings.  This module defines the representation at the
//! specification level ([`le_bytes`], [`le_value`]), proves that the two
//! directions invert each other, and provides the executable encoder and
//! decoder.

use vstd::prelude::*;
use vstd::arithmetic::div_mod::lemma_fundamental_div_mod;
use vstd::arithmetic::div_mod::lemma_fundamental_div_mod_converse;

verus! {

/// `256^k`, the number of values a `k`-byte string can denote.
pub open spec fn pow256(k: nat) -> nat
    decreases k,
{
    if k == 0 {
        1
    } else {
        256 * pow256((k - 1) as nat)
    }
}

/// The `k`-byte little-endian representation of `v`, least significant byte
/// first.  Only `v % 256^k` is representable; callers keep `v < 256^k`.
pub open spec fn le_bytes(v: nat, k: nat) -> Seq<u8>
    decreases k,
{
    if k == 0 {
        Seq::empty()
    } else {
        seq![(v % 256) as u8] + le_bytes(v / 256, (k - 1) as nat)
    }
}

/// The value a little-endian byte string denotes.
pub open spec fn le_value(s: Seq<u8>) -> nat
    decreases s.len(),
{
    if s.len() == 0 {
        0
    } else {
        (s[0] as nat) + 256 * le_value(s.subrange(1, s.len() as int))
    }
}

pub proof fn lemma_le_bytes_len(v: nat, k: nat)
    ensures
        le_bytes(v, k).len() == k,
    decreases k,
{
    if k > 0 {
        lemma_le_bytes_len(v / 256, (k - 1) as nat);
    }
}

pub proof fn lemma_pow256_increases(a: nat, b: nat)
    requires
        a <= b,
    ensures
        pow256(a) <= pow256(b),
    decreases b,
{
    if a < b {
        lemma_pow256_increases(a, (b - 1) as nat);
    }
}

pub proof fn lemma_pow256_16()
    ensures
        pow256(16) == 0x1_0000_0000_0000_0000_0000_0000_0000_0000,
{
    reveal_with_fuel(pow256, 17);
}

/// A byte string denotes a value below `256^len`.
pub proof fn lemma_le_value_bound(s: Seq<u8>)
    ensures
        le_value(s) < pow256(s.len()),
    decreases s.len(),
{
    if s.len() > 0 {
        lemma_le_value_bound(s.subrange(1, s.len() as int));
    }
}

/// Decoding an encoded value recovers it, for every value the width can hold.
pub proof fn lemma_le_value_of_bytes(v: nat, k: nat)
    requires
        v < pow256(k),
    ensures
        le_value(le_bytes(v, k)) == v,
    decreases k,
{
    if k > 0 {
        lemma_fundamental_div_mod(v as int, 256);
        assert(v / 256 < pow256((k - 1) as nat)) by {
            if v / 256 >= pow256((k - 1) as nat) {
                assert(256 * (v / 256) >= 256 * pow256((k - 1) as nat));
            }
        }
        lemma_le_value_of_bytes(v / 256, (k - 1) as nat);
        let s = le_bytes(v, k);
        lemma_le_bytes_len(v / 256, (k - 1) as nat);
        assert(s.subrange(1, s.len() as int) =~= le_bytes(v / 256, (k - 1) as nat));
    }
}

/// Encoding a decoded byte string recovers it: every byte string of width
/// `k` is the canonical encoding of the value it denotes.
pub proof fn lemma_le_bytes_of_value(s: Seq<u8>)
    ensures
        le_bytes(le_value(s), s.len()) == s,
    decreases s.len(),
{
    if s.len() == 0 {
        assert(le_bytes(le_value(s), s.len()) =~= s);
    } else {
        let t = s.subrange(1, s.len() as int);
        lemma_le_bytes_of_value(t);
        let v = le_value(s);
        lemma_fundamental_div_mod_converse(v as int, 256, le_value(t) as int, s[0] as int);
        assert(le_bytes(v, s.len()) =~= s);
    }
}

/// Appends the `k`-byte little-endian encoding of `v` to `out`.
pub fn le_encode(v: u128, k: usize, out: &mut Vec<u8>)
    ensures
        final(out)@ == old(out)@ + le_bytes(v as nat, k as nat),
{
    let mut x: u128 = v;
    let mut i: usize = 0;
    while i < k
        invariant
            i <= k,
            out@ + le_bytes(x as nat, (k - i) as nat) =~= old(out)@ + le_bytes(
                v as nat,
                k as nat,
            ),
        decreases k - i,
    {
        proof {
            assert(le_bytes(x as nat, (k - i) as nat) == seq![(x as nat % 256) as u8] + le_bytes(
                x as nat / 256,
                (k - i - 1) as nat,
            ));
        }
        let ghost out_pre = out@;
        out.push((x % 256) as u8);
        proof {
            assert(out@ + le_bytes(x as nat / 256, (k - i - 1) as nat) =~= out_pre + le_bytes(
                x as nat,
                (k - i) as nat,
            ));
        }
        x = x / 256;
        i = i + 1;
    }
    proof {
        assert(out@ + le_bytes(x as nat, 0) =~= out@);
        assert(out@ =~= old(out)@ + le_bytes(v as nat, k as nat));
    }
}

/// Reads the `k`-byte little-endian value stored at `b[start .. start + k]`.
pub fn le_decode(b: &Vec<u8>, start: usize, k: usize) -> (r: u128)
    requires
        start + k <= b@.len(),
        k <= 16,
    ensures
        r as nat == le_value(b@.subrange(start as int, (start + k) as int)),
{
    let n: usize = b.len();
    let mut x: u128 = 0;
    let mut i: usize = k;
    while i > 0
        invariant
            i <= k,
            k <= 16,
            n == b@.len(),
            start + k <= n,
            x as nat == le_value(b@.subrange((start + i) as int, (start + k) as int)),
            (x as nat) < pow256((k - i) as nat),
        decreases i,
    {
        i = i - 1;
        proof {
            let s = b@.subrange((start + i) as int, (start + k) as int);
            assert(s.len() == k - i);
            assert(s.subrange(1, s.len() as int) =~= b@.subrange(
                (start + i + 1) as int,
                (start + k) as int,
            ));
            assert(s[0] == b@[(start + i) as int]);
            lemma_pow256_increases((k - i) as nat, 16);
            lemma_pow256_16();
        }
        x = x * 256 + (b[start + i] as u128);
    }
    proof {
        assert(b@.subrange((start + i) as int, (start + k) as int) =~= b@.subrange(
            start as int,
            (start + k) as int,
        ));
    }
    x
}

} // verus!
