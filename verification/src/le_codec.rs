//! Little-endian integers held as byte arrays.
//!
//! The model: a byte string `b` stands for the natural number
//! `le_value(b) = b[0] + 256 * b[1] + 256^2 * b[2] + ...`, and `le_bytes(v, n)`
//! is the string of the `n` low-order bytes of `v`, least significant first.

use vstd::prelude::*;

verus! {

/// `256^n`.
pub open spec fn pow256(n: nat) -> nat
    decreases n,
{
    if n == 0 {
        1
    } else {
        256 * pow256((n - 1) as nat)
    }
}

/// The unsigned number that the little-endian byte string `b` encodes.
pub open spec fn le_value(b: Seq<u8>) -> nat
    decreases b.len(),
{
    if b.len() == 0 {
        0
    } else {
        b[0] as nat + 256 * le_value(b.drop_first())
    }
}

/// The `n` low-order bytes of `v`, least significant first.
pub open spec fn le_bytes(v: nat, n: nat) -> Seq<u8>
    decreases n,
{
    if n == 0 {
        Seq::empty()
    } else {
        seq![(v % 256) as u8] + le_bytes(v / 256, (n - 1) as nat)
    }
}

/// `2^128`, the number of values of a 128-bit integer.
pub open spec fn two_pow_128() -> nat {
    0x1_0000_0000_0000_0000_0000_0000_0000_0000nat
}

/// The two's-complement image of a 128-bit signed value as an unsigned number.
pub open spec fn twos_complement_128(v: int) -> nat {
    if v >= 0 {
        v as nat
    } else {
        (v + two_pow_128()) as nat
    }
}

/// The signed 128-bit value whose two's-complement image is `u`.
pub open spec fn from_twos_complement_128(u: nat) -> int {
    if u < two_pow_128() / 2 {
        u as int
    } else {
        u - two_pow_128()
    }
}

pub proof fn lemma_pow256_positive(n: nat)
    ensures
        pow256(n) >= 1,
    decreases n,
{
    if n > 0 {
        lemma_pow256_positive((n - 1) as nat);
    }
}

pub proof fn lemma_pow256_monotonic(m: nat, n: nat)
    requires
        m <= n,
    ensures
        pow256(m) <= pow256(n),
    decreases n,
{
    if m < n {
        lemma_pow256_monotonic(m, (n - 1) as nat);
        lemma_pow256_positive((n - 1) as nat);
    }
}

/// The widths that the pod wrappers use, as numbers.
pub proof fn lemma_pow256_widths()
    ensures
        pow256(1) == 0x100,
        pow256(2) == 0x1_0000,
        pow256(4) == 0x1_0000_0000,
        pow256(8) == 0x1_0000_0000_0000_0000,
        pow256(16) == two_pow_128(),
{
    reveal_with_fuel(pow256, 17);
}

pub proof fn lemma_le_bytes_len(v: nat, n: nat)
    ensures
        le_bytes(v, n).len() == n,
    decreases n,
{
    if n > 0 {
        lemma_le_bytes_len(v / 256, (n - 1) as nat);
    }
}

/// A string of `n` bytes encodes a number below `256^n`.
pub proof fn lemma_le_value_bound(b: Seq<u8>)
    ensures
        le_value(b) < pow256(b.len()),
    decreases b.len(),
{
    if b.len() > 0 {
        lemma_le_value_bound(b.drop_first());
    }
}

/// Reading back the `n` low-order bytes of `v` gives `v`, when `v` fits in `n` bytes.
pub proof fn law_le_value_of_le_bytes(v: nat, n: nat)
    requires
        v < pow256(n),
    ensures
        le_value(le_bytes(v, n)) == v,
    decreases n,
{
    if n > 0 {
        let rest = le_bytes(v / 256, (n - 1) as nat);
        law_le_value_of_le_bytes(v / 256, (n - 1) as nat);
        assert(le_bytes(v, n).drop_first() =~= rest);
    }
}

/// Every byte string is the encoding of the number it stands for: the
/// little-endian encoding of a given width is unique.
pub proof fn law_le_bytes_of_le_value(b: Seq<u8>)
    ensures
        le_bytes(le_value(b), b.len()) == b,
    decreases b.len(),
{
    if b.len() > 0 {
        let x = le_value(b.drop_first());
        law_le_bytes_of_le_value(b.drop_first());
        assert((b[0] as nat + 256 * x) % 256 == b[0] as nat);
        assert((b[0] as nat + 256 * x) / 256 == x);
        assert(le_bytes(le_value(b), b.len()) =~= b);
    }
}

/// Two byte strings of one width that stand for one number are equal.
pub proof fn law_le_value_injective(a: Seq<u8>, b: Seq<u8>)
    requires
        a.len() == b.len(),
        le_value(a) == le_value(b),
    ensures
        a == b,
{
    law_le_bytes_of_le_value(a);
    law_le_bytes_of_le_value(b);
}

/// Two's complement round trip, from the signed side.
pub proof fn law_twos_complement_128_roundtrip(v: int)
    requires
        i128::MIN <= v <= i128::MAX,
    ensures
        twos_complement_128(v) < two_pow_128(),
        from_twos_complement_128(twos_complement_128(v)) == v,
{
}

/// Two's complement round trip, from the unsigned side.
pub proof fn law_from_twos_complement_128_roundtrip(u: nat)
    requires
        u < two_pow_128(),
    ensures
        i128::MIN <= from_twos_complement_128(u) <= i128::MAX,
        twos_complement_128(from_twos_complement_128(u)) == u,
{
}

/// Writes the `N` low-order bytes of `value`, least significant first.
pub fn le_encode<const N: usize>(value: u128) -> (r: [u8; N])
    ensures
        r@ == le_bytes(value as nat, N as nat),
{
    let mut bytes = [0u8; N];
    let mut x: u128 = value;
    let mut i: usize = 0;
    while i < N
        invariant
            i <= N,
            bytes@.len() == N,
            le_bytes(value as nat, N as nat) == bytes@.subrange(0, i as int) + le_bytes(
                x as nat,
                (N - i) as nat,
            ),
        decreases N - i,
    {
        let ghost old_bytes = bytes@;
        let ghost k = (N - i) as nat;
        assert(le_bytes(x as nat, k) == seq![(x % 256) as u8] + le_bytes(
            (x / 256) as nat,
            (k - 1) as nat,
        ));
        bytes[i] = (x % 256) as u8;
        x = x / 256;
        i = i + 1;
        assert(bytes@.subrange(0, i as int) =~= old_bytes.subrange(0, i - 1) + seq![
            bytes@[i - 1],
        ]);
        assert(le_bytes(value as nat, N as nat) =~= bytes@.subrange(0, i as int) + le_bytes(
            x as nat,
            (N - i) as nat,
        ));
    }
    assert(bytes@.subrange(0, N as int) =~= bytes@);
    assert(le_bytes(x as nat, 0) =~= Seq::<u8>::empty());
    bytes
}

/// Reads an unsigned number of at most 16 little-endian bytes.
pub fn le_decode<const N: usize>(bytes: &[u8; N]) -> (r: u128)
    requires
        N <= 16,
    ensures
        r as nat == le_value(bytes@),
{
    let mut acc: u128 = 0;
    let mut i: usize = N;
    assert(bytes@.subrange(N as int, N as int) =~= Seq::<u8>::empty());
    while i > 0
        invariant
            i <= N,
            N <= 16,
            bytes@.len() == N,
            acc as nat == le_value(bytes@.subrange(i as int, N as int)),
            acc < pow256((N - i) as nat),
        decreases i,
    {
        i = i - 1;
        proof {
            lemma_pow256_monotonic((N - i) as nat, 16);
            lemma_pow256_widths();
            assert(bytes@.subrange(i as int, N as int).drop_first() =~= bytes@.subrange(
                i + 1,
                N as int,
            ));
        }
        acc = acc * 256 + bytes[i] as u128;
    }
    assert(bytes@.subrange(0, N as int) =~= bytes@);
    acc
}

} // verus!
