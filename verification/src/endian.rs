//! Little-endian encoding of unsigned integers, stated over natural numbers.

use vstd::prelude::*;

verus! {

/// `256` to the power `n`.
pub open spec fn pow256(n: nat) -> nat
    decreases n,
{
    if n == 0 {
        1
    } else {
        256 * pow256((n - 1) as nat)
    }
}

/// The `n` least significant base-256 digits of `v`, least significant first.
pub open spec fn le_bytes(v: nat, n: nat) -> Seq<u8>
    decreases n,
{
    if n == 0 {
        Seq::empty()
    } else {
        seq![(v % 256) as u8] + le_bytes(v / 256, (n - 1) as nat)
    }
}

/// The number whose base-256 digits, least significant first, are `s`.
pub open spec fn le_value(s: Seq<u8>) -> nat
    decreases s.len(),
{
    if s.len() == 0 {
        0
    } else {
        s[0] as nat + 256 * le_value(s.drop_first())
    }
}

/// An encoding of `n` digits is `n` bytes long.
pub proof fn lemma_le_bytes_len(v: nat, n: nat)
    ensures
        le_bytes(v, n).len() == n,
    decreases n,
{
    if n > 0 {
        lemma_le_bytes_len(v / 256, (n - 1) as nat);
    }
}

/// A sequence of `n` bytes stands for a number below `256^n`.
pub proof fn lemma_le_value_bound(s: Seq<u8>)
    ensures
        le_value(s) < pow256(s.len()),
    decreases s.len(),
{
    if s.len() > 0 {
        lemma_le_value_bound(s.drop_first());
        let rest = le_value(s.drop_first());
        let p = pow256((s.len() - 1) as nat);
        assert(s[0] as nat + 256 * rest < 256 * p) by (nonlinear_arith)
            requires
                rest < p,
                (s[0] as nat) < 256,
        ;
    }
}

/// Decoding undoes encoding for every number that fits in `n` digits.
pub proof fn lemma_le_round_trip(v: nat, n: nat)
    requires
        v < pow256(n),
    ensures
        le_value(le_bytes(v, n)) == v,
    decreases n,
{
    if n > 0 {
        let m = (n - 1) as nat;
        let s = le_bytes(v, n);
        let p = pow256(m);
        assert(v / 256 < p) by (nonlinear_arith)
            requires
                v < 256 * p,
        ;
        lemma_le_round_trip(v / 256, m);
        assert(s.drop_first() =~= le_bytes(v / 256, m));
        assert(s[0] == (v % 256) as u8);
        assert(v == v % 256 + 256 * (v / 256)) by (nonlinear_arith);
    }
}

/// Encoding undoes decoding: the bytes of a sequence's number are the sequence.
pub proof fn lemma_le_bytes_of_value(s: Seq<u8>)
    ensures
        le_bytes(le_value(s), s.len()) == s,
    decreases s.len(),
{
    if s.len() > 0 {
        let rest = le_value(s.drop_first());
        let v = le_value(s);
        let b = s[0] as nat;
        lemma_le_bytes_of_value(s.drop_first());
        assert(v % 256 == b && v / 256 == rest) by (nonlinear_arith)
            requires
                v == b + 256 * rest,
                b < 256,
        ;
        assert(le_bytes(v, s.len()) =~= s);
    } else {
        assert(le_bytes(le_value(s), 0) =~= s);
    }
}

/// `256^8` is `2^64` and `256^16` is `2^128`.
pub proof fn lemma_pow256_widths()
    ensures
        pow256(8) == 0x1_0000_0000_0000_0000,
        pow256(16) == 0x1_0000_0000_0000_0000_0000_0000_0000_0000,
{
    reveal_with_fuel(pow256, 17);
}

/// The eight bytes of `v`, least significant first.
pub fn u64_to_le_bytes(v: u64) -> (out: Vec<u8>)
    ensures
        out@ == le_bytes(v as nat, 8),
        out@.len() == 8,
{
    let mut out: Vec<u8> = Vec::new();
    let mut rest: u64 = v;
    let mut i: usize = 0;
    while i < 8
        invariant
            i <= 8,
            out@.len() == i,
            out@ + le_bytes(rest as nat, (8 - i) as nat) == le_bytes(v as nat, 8),
        decreases 8 - i,
    {
        let ghost before = out@;
        let digit: u8 = (rest % 256) as u8;
        out.push(digit);
        proof {
            let k = (8 - i) as nat;
            assert(le_bytes(rest as nat, k) == seq![digit] + le_bytes(rest as nat / 256, (k - 1) as nat));
            assert(out@ + le_bytes(rest as nat / 256, (k - 1) as nat) =~= before + le_bytes(
                rest as nat,
                k,
            ));
        }
        rest = rest / 256;
        i = i + 1;
    }
    proof {
        assert(out@ + le_bytes(rest as nat, 0) =~= out@);
    }
    out
}

/// The sixteen bytes of `v`, least significant first.
pub fn u128_to_le_bytes(v: u128) -> (out: Vec<u8>)
    ensures
        out@ == le_bytes(v as nat, 16),
        out@.len() == 16,
{
    let mut out: Vec<u8> = Vec::new();
    let mut rest: u128 = v;
    let mut i: usize = 0;
    while i < 16
        invariant
            i <= 16,
            out@.len() == i,
            out@ + le_bytes(rest as nat, (16 - i) as nat) == le_bytes(v as nat, 16),
        decreases 16 - i,
    {
        let ghost before = out@;
        let digit: u8 = (rest % 256) as u8;
        out.push(digit);
        proof {
            let k = (16 - i) as nat;
            assert(le_bytes(rest as nat, k) == seq![digit] + le_bytes(rest as nat / 256, (k - 1) as nat));
            assert(out@ + le_bytes(rest as nat / 256, (k - 1) as nat) =~= before + le_bytes(
                rest as nat,
                k,
            ));
        }
        rest = rest / 256;
        i = i + 1;
    }
    proof {
        assert(out@ + le_bytes(rest as nat, 0) =~= out@);
    }
    out
}

/// The number that eight little-endian bytes stand for.
pub fn u64_from_le_bytes(bytes: &[u8]) -> (v: u64)
    requires
        bytes@.len() == 8,
    ensures
        v as nat == le_value(bytes@),
{
    let mut acc: u64 = 0;
    let mut i: usize = 8;
    proof {
        assert(bytes@.subrange(8, 8) =~= Seq::<u8>::empty());
        lemma_pow256_widths();
    }
    while i > 0
        invariant
            i <= 8,
            bytes@.len() == 8,
            acc as nat == le_value(bytes@.subrange(i as int, 8)),
            pow256(8) == 0x1_0000_0000_0000_0000,
        decreases i,
    {
        let ghost tail = bytes@.subrange(i as int, 8);
        let ghost longer = bytes@.subrange(i as int - 1, 8);
        let digit: u8 = bytes[i - 1];
        proof {
            assert(longer.drop_first() =~= tail);
            assert(longer[0] == digit);
            lemma_le_value_bound(longer);
            lemma_pow256_monotone(longer.len(), 8);
        }
        acc = acc * 256 + digit as u64;
        i = i - 1;
    }
    proof {
        assert(bytes@.subrange(0, 8) =~= bytes@);
    }
    acc
}

/// The number that sixteen little-endian bytes stand for.
pub fn u128_from_le_bytes(bytes: &[u8]) -> (v: u128)
    requires
        bytes@.len() == 16,
    ensures
        v as nat == le_value(bytes@),
{
    let mut acc: u128 = 0;
    let mut i: usize = 16;
    proof {
        assert(bytes@.subrange(16, 16) =~= Seq::<u8>::empty());
        lemma_pow256_widths();
    }
    while i > 0
        invariant
            i <= 16,
            bytes@.len() == 16,
            acc as nat == le_value(bytes@.subrange(i as int, 16)),
            pow256(16) == 0x1_0000_0000_0000_0000_0000_0000_0000_0000,
        decreases i,
    {
        let ghost tail = bytes@.subrange(i as int, 16);
        let ghost longer = bytes@.subrange(i as int - 1, 16);
        let digit: u8 = bytes[i - 1];
        proof {
            assert(longer.drop_first() =~= tail);
            assert(longer[0] == digit);
            lemma_le_value_bound(longer);
            lemma_pow256_monotone(longer.len(), 16);
        }
        acc = acc * 256 + digit as u128;
        i = i - 1;
    }
    proof {
        assert(bytes@.subrange(0, 16) =~= bytes@);
    }
    acc
}

/// Powers of 256 grow with the exponent.
pub proof fn lemma_pow256_monotone(a: nat, b: nat)
    requires
        a <= b,
    ensures
        pow256(a) <= pow256(b),
    decreases b,
{
    if a < b {
        lemma_pow256_monotone(a, (b - 1) as nat);
    }
}

} // verus!
