//! Unsigned numbers written as ASCII digits in a given radix.

use vstd::prelude::*;
use vstd::arithmetic::div_mod::{lemma_div_decreases, lemma_fundamental_div_mod, lemma_small_mod};

verus! {

/// The value of an ASCII digit (`0`-`9`, `a`-`z`, `A`-`Z`), or 36 for any other byte.
pub open spec fn digit_value(c: u8) -> nat {
    if 48 <= c <= 57 {
        (c - 48) as nat
    } else if 97 <= c <= 122 {
        (c - 87) as nat
    } else if 65 <= c <= 90 {
        (c - 55) as nat
    } else {
        36
    }
}

/// Every byte of `s` is a digit of `radix`.
pub open spec fn all_digits(s: Seq<u8>, radix: nat) -> bool {
    forall|i: int| 0 <= i < s.len() ==> #[trigger] digit_value(s[i]) < radix
}

/// The number that the digits `s` denote in `radix`, most significant first.
pub open spec fn digits_value(s: Seq<u8>, radix: nat) -> nat
    decreases s.len(),
{
    if s.len() == 0 {
        0
    } else {
        digits_value(s.drop_last(), radix) * radix + digit_value(s.last())
    }
}

/// The lower-case ASCII digit of `d`.
pub open spec fn digit_char(d: nat) -> u8 {
    if d < 10 {
        (48 + d) as u8
    } else {
        (87 + d) as u8
    }
}

/// The shortest digits of `n` in `radix`, most significant first.
pub open spec fn digits_of(n: nat, radix: nat) -> Seq<u8>
    decreases n via digits_of_decreases
{
    if radix < 2 || n < radix {
        seq![digit_char(n)]
    } else {
        digits_of(n / radix, radix).push(digit_char(n % radix))
    }
}

#[via_fn]
proof fn digits_of_decreases(n: nat, radix: nat) {
    if !(radix < 2 || n < radix) {
        lemma_div_decreases(n as int, radix as int);
    }
}

/// Why digits could not be read as a `u32`.
#[derive(Debug, Clone, Copy, PartialEq, Eq, Structural)]
pub enum NumberError {
    /// The text is empty or holds a byte that is no digit of the radix.
    InvalidDigit,
    /// The number is larger than `u32::MAX`.
    Overflow,
}

/// What reading `s` as a `u32` in `radix` gives.
pub open spec fn spec_parse_digits(s: Seq<u8>, radix: nat) -> Result<u32, NumberError> {
    if s.len() == 0 || !all_digits(s, radix) {
        Err(NumberError::InvalidDigit)
    } else if digits_value(s, radix) > u32::MAX {
        Err(NumberError::Overflow)
    } else {
        Ok(digits_value(s, radix) as u32)
    }
}

/// A prefix of some digits never denotes more than the digits themselves.
pub proof fn lemma_prefix_value_le(s: Seq<u8>, k: int, radix: nat)
    requires
        0 <= k <= s.len(),
        radix >= 1,
    ensures
        digits_value(s.subrange(0, k), radix) <= digits_value(s, radix),
    decreases s.len(),
{
    if k < s.len() {
        lemma_prefix_value_le(s.drop_last(), k, radix);
        assert(s.drop_last().subrange(0, k) =~= s.subrange(0, k));
        let v = digits_value(s.drop_last(), radix);
        assert(v * radix >= v) by (nonlinear_arith)
            requires
                radix >= 1,
        ;
    } else {
        assert(s.subrange(0, k) =~= s);
    }
}

/// The digits of `n` are digits of the radix and denote `n`.
pub proof fn lemma_digits_of(n: nat, radix: nat)
    requires
        2 <= radix <= 36,
    ensures
        digits_of(n, radix).len() > 0,
        all_digits(digits_of(n, radix), radix),
        digits_value(digits_of(n, radix), radix) == n,
    decreases n,
{
    if n < radix {
        let s = digits_of(n, radix);
        assert(s.drop_last() =~= Seq::<u8>::empty());
        assert(digit_value(digit_char(n)) == n);
        assert(digits_value(s.drop_last(), radix) == 0);
        assert(0 * radix == 0);
        assert(digits_value(s, radix) == digits_value(s.drop_last(), radix) * radix + digit_value(s.last()));
    } else {
        lemma_div_decreases(n as int, radix as int);
        lemma_digits_of(n / radix, radix);
        lemma_fundamental_div_mod(n as int, radix as int);
        let p = digits_of(n / radix, radix);
        let s = digits_of(n, radix);
        assert(s.drop_last() =~= p);
        assert(n % radix < radix);
        assert(digit_value(digit_char(n % radix)) == n % radix);
        assert forall|i: int| 0 <= i < s.len() implies #[trigger] digit_value(s[i]) < radix by {
            if i < p.len() {
                assert(s[i] == p[i]);
            }
        }
        assert(radix * (n / radix) == (n / radix) * radix) by (nonlinear_arith);
        assert(s.last() == digit_char(n % radix));
        assert(digits_value(s, radix) == digits_value(p, radix) * radix + digit_value(s.last()));
    }
}

/// The value of one ASCII digit, or 36 for a byte that is none.
pub fn digit_of(c: u8) -> (r: u32)
    ensures
        r == digit_value(c),
{
    if 48 <= c && c <= 57 {
        (c - 48) as u32
    } else if 97 <= c && c <= 122 {
        (c - 87) as u32
    } else if 65 <= c && c <= 90 {
        (c - 55) as u32
    } else {
        36
    }
}

/// Read the bytes of `s` from `start` on as a `u32` written in `radix`.
pub fn parse_digits(s: &[u8], start: usize, radix: u32) -> (r: Result<u32, NumberError>)
    requires
        2 <= radix <= 36,
        start <= s@.len(),
    ensures
        r == spec_parse_digits(s@.subrange(start as int, s@.len() as int), radix as nat),
{
    let ghost t = s@.subrange(start as int, s@.len() as int);
    if start == s.len() {
        return Err(NumberError::InvalidDigit);
    }
    let mut i: usize = start;
    while i < s.len()
        invariant
            start <= i <= s@.len(),
            t == s@.subrange(start as int, s@.len() as int),
            forall|j: int| start <= j < i ==> #[trigger] digit_value(s@[j]) < radix,
        decreases s@.len() - i,
    {
        if digit_of(s[i]) >= radix {
            assert(t[i - start] == s@[i as int]);
            return Err(NumberError::InvalidDigit);
        }
        i = i + 1;
    }
    assert(all_digits(t, radix as nat)) by {
        assert forall|j: int| 0 <= j < t.len() implies #[trigger] digit_value(t[j]) < radix by {
            assert(t[j] == s@[start + j]);
        }
    }
    let mut acc: u64 = 0;
    let mut k: usize = start;
    while k < s.len()
        invariant
            start <= k <= s@.len(),
            t == s@.subrange(start as int, s@.len() as int),
            all_digits(t, radix as nat),
            2 <= radix <= 36,
            acc == digits_value(t.subrange(0, k - start), radix as nat),
            acc <= u32::MAX,
        decreases s@.len() - k,
    {
        let d = digit_of(s[k]);
        proof {
            assert(t[k - start] == s@[k as int]);
            assert(d < radix);
            let next = t.subrange(0, k + 1 - start);
            assert(next.drop_last() =~= t.subrange(0, k - start));
            assert(next.last() == s@[k as int]);
            assert(acc * radix <= u32::MAX * 36) by (nonlinear_arith)
                requires
                    acc <= u32::MAX,
                    radix <= 36,
            ;
        }
        acc = acc * (radix as u64) + (d as u64);
        k = k + 1;
        if acc > u32::MAX as u64 {
            proof {
                lemma_prefix_value_le(t, k - start, radix as nat);
            }
            return Err(NumberError::Overflow);
        }
    }
    assert(t.subrange(0, k - start) =~= t);
    Ok(acc as u32)
}

/// Append the digits of `n` in `radix` to `out`.
pub fn push_digits(n: u32, radix: u32, out: &mut Vec<u8>)
    requires
        2 <= radix <= 36,
    ensures
        final(out)@ == old(out)@ + digits_of(n as nat, radix as nat),
    decreases n,
{
    if n >= radix {
        proof {
            lemma_div_decreases(n as int, radix as int);
        }
        push_digits(n / radix, radix, out);
    }
    let d = n % radix;
    let c: u8 = if d < 10 {
        (48 + d) as u8
    } else {
        (87 + d) as u8
    };
    out.push(c);
    proof {
        if n >= radix {
            assert(old(out)@ + digits_of(n as nat, radix as nat) =~= old(out)@ + digits_of((n / radix) as nat, radix as nat) + seq![c]);
        } else {
            lemma_small_mod(n as nat, radix as nat);
            assert(old(out)@ + digits_of(n as nat, radix as nat) =~= old(out)@ + seq![c]);
        }
    }
}

} // verus!
