//! Little-endian encoding of the fixed-width integers that typed SDO
//! transfers carry.

use vstd::prelude::*;
use vstd::arithmetic::div_mod::{lemma_div_denominator, lemma_mod_breakdown};

verus! {

/// 256 to the power `n`.
pub open spec fn pow256(n: nat) -> nat
    decreases n,
{
    if n == 0 {
        1
    } else {
        256 * pow256((n - 1) as nat)
    }
}

/// The number that little-endian bytes denote.
pub open spec fn le_value(s: Seq<u8>) -> nat
    decreases s.len(),
{
    if s.len() == 0 {
        0
    } else {
        (s[0] + 256 * le_value(s.drop_first())) as nat
    }
}

/// Little-endian bytes denote less than 256 to the power of their count.
pub proof fn lemma_le_value_bound(s: Seq<u8>)
    ensures
        le_value(s) < pow256(s.len()),
    decreases s.len(),
{
    if s.len() > 0 {
        lemma_le_value_bound(s.drop_first());
        let v = le_value(s.drop_first());
        let p = pow256((s.len() - 1) as nat);
        assert(s[0] + 256 * v < 256 * p) by (nonlinear_arith)
            requires
                v < p,
                s[0] < 256,
        ;
    }
}

/// The number that at most 8 little-endian bytes denote.
pub fn le_u64(bytes: &[u8]) -> (r: u64)
    requires
        bytes@.len() <= 8,
    ensures
        r == le_value(bytes@),
{
    let n = bytes.len();
    let mut acc: u64 = 0;
    let mut i: usize = n;
    assert(bytes@.subrange(n as int, n as int) =~= Seq::<u8>::empty());
    while i > 0
        invariant
            i <= n == bytes@.len() <= 8,
            acc == le_value(bytes@.subrange(i as int, n as int)),
        decreases i,
    {
        let ghost tail = bytes@.subrange(i as int, n as int);
        let ghost next = bytes@.subrange(i - 1, n as int);
        proof {
            assert(next.drop_first() =~= tail);
            lemma_le_value_bound(next);
            lemma_pow256_values();
            lemma_pow256_mono(next.len(), 8);
        }
        acc = bytes[i - 1] as u64 + 256 * acc;
        i = i - 1;
    }
    assert(bytes@.subrange(0, n as int) =~= bytes@);
    acc
}

/// The powers of 256 that the integer widths need.
pub proof fn lemma_pow256_values()
    ensures
        pow256(1) == 256,
        pow256(2) == 65536,
        pow256(4) == 4294967296,
        pow256(8) == 18446744073709551616,
{
    reveal_with_fuel(pow256, 9);
}

/// Powers of 256 grow with the exponent.
pub proof fn lemma_pow256_mono(a: nat, b: nat)
    requires
        a <= b,
    ensures
        pow256(a) <= pow256(b),
    decreases b,
{
    if a < b {
        lemma_pow256_mono(a, (b - 1) as nat);
        lemma_pow256_pos((b - 1) as nat);
    }
}

/// Powers of 256 are positive.
pub proof fn lemma_pow256_pos(n: nat)
    ensures
        pow256(n) > 0,
    decreases n,
{
    if n > 0 {
        lemma_pow256_pos((n - 1) as nat);
    }
}

/// The `size` lowest bytes of `v`, least significant first.
pub fn le_bytes(v: u64, size: usize) -> (r: Vec<u8>)
    requires
        size <= 8,
    ensures
        r@ == le_seq(v as nat, size as nat),
{
    let mut r: Vec<u8> = Vec::new();
    let mut x: u64 = v;
    let mut i: usize = 0;
    assert(pow256(0) == 1);
    assert(v as nat / 1 == v);
    while i < size
        invariant
            i <= size <= 8,
            r@.len() == i,
            x == v as nat / pow256(i as nat),
            forall|j: int| 0 <= j < i ==> #[trigger] r@[j] == (v as nat / pow256(j as nat)) % 256,
        decreases size - i,
    {
        proof {
            lemma_pow256_pos(i as nat);
            lemma_div_denominator(v as int, pow256(i as nat) as int, 256);
            assert(pow256((i + 1) as nat) == 256 * pow256(i as nat));
            assert(pow256(i as nat) * 256 == 256 * pow256(i as nat)) by (nonlinear_arith);
        }
        r.push((x % 256) as u8);
        x = x / 256;
        i = i + 1;
    }
    assert(r@ =~= le_seq(v as nat, size as nat));
    r
}

/// The `n` lowest bytes of `v`, least significant first.
pub open spec fn le_seq(v: nat, n: nat) -> Seq<u8> {
    Seq::new(n, |i: int| ((v / pow256(i as nat)) % 256) as u8)
}

/// The lowest bytes of a number denote that number, up to the powers of 256
/// that they cover: writing a value and reading it back gives the value.
pub proof fn lemma_le_seq_value(v: nat, n: nat)
    ensures
        le_value(le_seq(v, n)) == v % pow256(n),
    decreases n,
{
    lemma_pow256_pos(n);
    if n == 0 {
        assert(v % 1 == 0);
    } else {
        let m = (n - 1) as nat;
        let s = le_seq(v, n);
        let t = le_seq(v / 256, m);
        assert forall|i: int| 0 <= i < m implies #[trigger] s.drop_first()[i] == t[i] by {
            lemma_pow256_pos(i as nat);
            lemma_div_denominator(v as int, 256, pow256(i as nat) as int);
            assert(pow256((i + 1) as nat) == 256 * pow256(i as nat));
        }
        assert(s.drop_first() =~= t);
        lemma_le_seq_value(v / 256, m);
        lemma_pow256_pos(m);
        lemma_mod_breakdown(v as int, 256, pow256(m) as int);
        assert(pow256(0) == 1);
        assert(v / 1 == v);
        assert(s[0] == v % 256);
    }
}

/// A `u8` from at most 1 little-endian byte.
pub fn parse_u8(bytes: &[u8]) -> (r: u8)
    requires
        bytes@.len() <= 1,
    ensures
        r == le_value(bytes@),
{
    proof {
        lemma_le_value_bound(bytes@);
        lemma_pow256_mono(bytes@.len(), 1);
        lemma_pow256_values();
    }
    le_u64(bytes) as u8
}

/// A `u16` from at most 2 little-endian bytes.
pub fn parse_u16(bytes: &[u8]) -> (r: u16)
    requires
        bytes@.len() <= 2,
    ensures
        r == le_value(bytes@),
{
    proof {
        lemma_le_value_bound(bytes@);
        lemma_pow256_mono(bytes@.len(), 2);
        lemma_pow256_values();
    }
    le_u64(bytes) as u16
}

/// A `u32` from at most 4 little-endian bytes.
pub fn parse_u32(bytes: &[u8]) -> (r: u32)
    requires
        bytes@.len() <= 4,
    ensures
        r == le_value(bytes@),
{
    proof {
        lemma_le_value_bound(bytes@);
        lemma_pow256_mono(bytes@.len(), 4);
        lemma_pow256_values();
    }
    le_u64(bytes) as u32
}

/// A `u64` from at most 8 little-endian bytes.
pub fn parse_u64(bytes: &[u8]) -> (r: u64)
    requires
        bytes@.len() <= 8,
    ensures
        r == le_value(bytes@),
{
    le_u64(bytes)
}

/// An `i8` from at most 1 little-endian byte, in two's complement.
pub fn parse_i8(bytes: &[u8]) -> (r: i8)
    requires
        bytes@.len() <= 1,
    ensures
        r as int == (if le_value(bytes@) >= 128 { le_value(bytes@) - 256 } else { le_value(bytes@) as int }),
{
    let u = parse_u8(bytes);
    if u >= 128 {
        (u as i64 - 256) as i8
    } else {
        u as i8
    }
}

/// An `i16` from at most 2 little-endian bytes, in two's complement.
pub fn parse_i16(bytes: &[u8]) -> (r: i16)
    requires
        bytes@.len() <= 2,
    ensures
        r as int == (if le_value(bytes@) >= 32768 { le_value(bytes@) - 65536 } else { le_value(bytes@) as int }),
{
    let u = parse_u16(bytes);
    if u >= 32768 {
        (u as i64 - 65536) as i16
    } else {
        u as i16
    }
}

/// An `i32` from at most 4 little-endian bytes, in two's complement.
pub fn parse_i32(bytes: &[u8]) -> (r: i32)
    requires
        bytes@.len() <= 4,
    ensures
        r as int == (if le_value(bytes@) >= 2147483648 { le_value(bytes@) - 4294967296 } else { le_value(bytes@) as int }),
{
    let u = parse_u32(bytes);
    if u >= 2147483648 {
        (u as i64 - 4294967296) as i32
    } else {
        u as i32
    }
}

/// An `i64` from at most 8 little-endian bytes, in two's complement.
pub fn parse_i64(bytes: &[u8]) -> (r: i64)
    requires
        bytes@.len() <= 8,
    ensures
        r as int == (if le_value(bytes@) >= 0x8000_0000_0000_0000 { le_value(bytes@) - 0x1_0000_0000_0000_0000 } else { le_value(bytes@) as int }),
{
    let u = parse_u64(bytes);
    if u >= 0x8000_0000_0000_0000 {
        let low = (u - 0x8000_0000_0000_0000) as i64;
        low + i64::MIN
    } else {
        u as i64
    }
}

} // verus!
