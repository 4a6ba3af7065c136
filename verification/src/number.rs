//! Numbers written as text.

use crate::text::chars_of;
use vstd::prelude::*;
use vstd::string::StringExecFns;

verus! {

/// The character of a digit below 16, in lower case.
pub open spec fn digit_char(d: int) -> char {
    if d < 10 {
        (d + 48) as char
    } else {
        (d - 10 + 97) as char
    }
}

/// The character of a digit below 16, in lower case.
pub fn digit(d: u8) -> (c: char)
    requires
        d < 16,
    ensures
        c == digit_char(d as int),
{
    if d < 10 {
        (d + 48) as char
    } else {
        (d - 10 + 97) as char
    }
}

/// `n` in decimal, without leading zeros.
pub open spec fn decimal(n: nat) -> Seq<char>
    decreases n,
{
    if n < 10 {
        seq![digit_char(n as int)]
    } else {
        decimal(n / 10).push(digit_char((n % 10) as int))
    }
}

/// `n` in decimal, with a minus sign where it is negative.
pub open spec fn signed_decimal(n: int) -> Seq<char> {
    if n < 0 {
        seq!['-'] + decimal((-n) as nat)
    } else {
        decimal(n as nat)
    }
}

/// `n` in decimal.
pub fn to_decimal(n: u64) -> (s: String)
    ensures
        s@ == decimal(n as nat),
    decreases n,
{
    let mut s = if n < 10 {
        String::new()
    } else {
        to_decimal(n / 10)
    };
    s.push(digit((n % 10) as u8));
    s
}

/// `n` in decimal, with a minus sign where it is negative.
pub fn to_signed_decimal(n: i32) -> (s: String)
    ensures
        s@ == signed_decimal(n as int),
{
    if n < 0 {
        let mut s = String::from_str("-");
        proof {
            reveal_strlit("-");
        }
        let magnitude: i64 = -(n as i64);
        let digits = to_decimal(magnitude as u64);
        s.append(digits.as_str());
        assert(s@ =~= seq!['-'] + decimal((-n) as nat));
        s
    } else {
        to_decimal(n as u64)
    }
}

// ---------------------------------------------------------------------------
// Reading numbers
// ---------------------------------------------------------------------------

/// The value of a digit of base 8 or 10.
pub open spec fn digit_value(c: char) -> int {
    c as u32 - 48
}

/// Whether every character is a digit of the base.
pub open spec fn all_digits(s: Seq<char>, base: int) -> bool {
    forall|i: int| 0 <= i < s.len() ==> 0 <= #[trigger] digit_value(s[i]) < base
}

/// The number that the digits of `s` write in the base.
pub open spec fn digits_value(s: Seq<char>, base: int) -> int
    decreases s.len(),
{
    if s.len() == 0 {
        0
    } else {
        digits_value(s.drop_last(), base) * base + digit_value(s.last())
    }
}

/// The digits of a number: what follows its plus sign, where it has one.
pub open spec fn after_plus(s: Seq<char>) -> Seq<char> {
    if s.len() > 0 && s[0] == '+' {
        s.drop_first()
    } else {
        s
    }
}

/// The number that `s` writes in the base: a plus sign or none, then one or
/// more digits, and a value of at most `most`.
pub open spec fn number_in(s: Seq<char>, base: int, most: int) -> Option<int> {
    let digits = after_plus(s);
    if digits.len() > 0 && all_digits(digits, base) && digits_value(digits, base) <= most {
        Some(digits_value(digits, base))
    } else {
        None
    }
}

/// More digits do not write a smaller number.
proof fn lemma_prefix_is_no_larger(s: Seq<char>, n: int, base: int)
    requires
        0 <= n <= s.len(),
        base >= 2,
        all_digits(s, base),
    ensures
        0 <= digits_value(s.take(n), base) <= digits_value(s, base),
    decreases s.len() - n,
{
    if n == s.len() {
        assert(s.take(n) =~= s);
        lemma_value_is_natural(s, base);
    } else {
        lemma_prefix_is_no_larger(s, n + 1, base);
        assert(s.take(n + 1).drop_last() =~= s.take(n));
        assert(0 <= digit_value(s[n]));
        assert(all_digits(s.take(n), base)) by {
            assert forall|i: int| 0 <= i < n implies 0 <= #[trigger] digit_value(
                s.take(n)[i],
            ) < base by {
                assert(s.take(n)[i] == s[i]);
            }
        }
        lemma_value_is_natural(s.take(n), base);
        let v = digits_value(s.take(n), base);
        assert(v <= v * base) by (nonlinear_arith)
            requires
                v >= 0,
                base >= 2,
        ;
    }
}

/// Digits write a natural number.
proof fn lemma_value_is_natural(s: Seq<char>, base: int)
    requires
        base >= 2,
        all_digits(s, base),
    ensures
        digits_value(s, base) >= 0,
    decreases s.len(),
{
    if s.len() > 0 {
        let t = s.drop_last();
        assert(all_digits(t, base)) by {
            assert forall|i: int| 0 <= i < t.len() implies 0 <= #[trigger] digit_value(
                t[i],
            ) < base by {
                assert(t[i] == s[i]);
            }
        }
        lemma_value_is_natural(t, base);
        assert(digit_value(s[s.len() - 1]) >= 0);
        let v = digits_value(t, base);
        assert(v * base >= 0) by (nonlinear_arith)
            requires
                v >= 0,
                base >= 2,
        ;
    }
}

/// The number that `s` writes in the base, if it is at most `most`.
pub fn parse_number(s: &str, base: u64, most: u64) -> (r: Option<u64>)
    requires
        2 <= base <= 10,
    ensures
        match r {
            Some(n) => number_in(s@, base as int, most as int) == Some(n as int),
            None => number_in(s@, base as int, most as int) is None,
        },
{
    let v = chars_of(s);
    let n = v.len();
    let start: usize = if n > 0 && v[0] == '+' {
        1
    } else {
        0
    };
    let ghost digits = after_plus(s@);
    assert(digits =~= s@.skip(start as int));
    if start == n {
        return None;
    }
    let mut value: u64 = 0;
    let mut i: usize = start;
    assert(digits.take(0) =~= Seq::empty());
    while i < n
        invariant
            v@ == s@,
            n == v@.len(),
            start <= i <= n,
            2 <= base <= 10,
            digits == after_plus(s@),
            digits =~= s@.skip(start as int),
            digits.len() > 0,
            value <= most,
            all_digits(digits.take(i - start), base as int),
            value == digits_value(digits.take(i - start), base as int),
        decreases n - i,
    {
        let c = v[i] as u32;
        let ghost k = i - start;
        assert(digits[k] == s@[i as int]);
        if c < 48 || c - 48 >= base as u32 {
            assert(!(0 <= digit_value(digits[k]) < base));
            return None;
        }
        let d = (c - 48) as u64;
        assert(digits.take(k + 1).drop_last() =~= digits.take(k));
        assert(all_digits(digits.take(k + 1), base as int)) by {
            assert forall|j: int| 0 <= j < k + 1 implies 0 <= #[trigger] digit_value(
                digits.take(k + 1)[j],
            ) < base by {
                if j < k {
                    assert(digits.take(k)[j] == digits[j]);
                    assert(0 <= digit_value(digits.take(k)[j]) < base);
                }
            }
        }
        assert((value as int) * (base as int) <= 0xffff_ffff_ffff_ffff * 10) by (nonlinear_arith)
            requires
                0 <= value <= 0xffff_ffff_ffff_ffff,
                0 <= base <= 10,
        ;
        let next: u128 = (value as u128) * (base as u128) + (d as u128);
        assert(next == digits_value(digits.take(k + 1), base as int));
        if next > most as u128 {
            proof {
                if all_digits(digits, base as int) {
                    lemma_prefix_is_no_larger(digits, k + 1, base as int);
                }
            }
            return None;
        }
        value = next as u64;
        i += 1;
    }
    assert(digits.take(n - start) =~= digits);
    Some(value)
}

/// The `u64` that `s` writes in decimal, or 0 where it writes none.
pub fn parse_or_zero(s: &str) -> (n: u64)
    ensures
        n == read_or_zero(s@, u64::MAX as int),
{
    match parse_number(s, 10, u64::MAX) {
        Some(n) => n,
        None => 0,
    }
}

/// The `u32` that `s` writes in decimal, or 0 where it writes none.
pub fn parse_u32_or_zero(s: &str) -> (n: u32)
    ensures
        n == read_or_zero(s@, u32::MAX as int),
{
    match parse_number(s, 10, u32::MAX as u64) {
        Some(n) => n as u32,
        None => 0,
    }
}

/// The number of at most `most` that `s` writes in decimal, or 0.
pub open spec fn read_or_zero(s: Seq<char>, most: int) -> int {
    match number_in(s, 10, most) {
        Some(n) => n,
        None => 0,
    }
}

// ---------------------------------------------------------------------------
// Bytes in hexadecimal
// ---------------------------------------------------------------------------

/// Each byte as two hexadecimal digits in lower case.
pub open spec fn hex(bytes: Seq<u8>) -> Seq<char>
    decreases bytes.len(),
{
    if bytes.len() == 0 {
        Seq::empty()
    } else {
        hex(bytes.drop_last()).push(digit_char((bytes.last() / 16) as int)).push(
            digit_char((bytes.last() % 16) as int),
        )
    }
}

/// Each byte as two hexadecimal digits in lower case.
pub fn to_hex(bytes: &Vec<u8>) -> (s: String)
    ensures
        s@ == hex(bytes@),
{
    let n = bytes.len();
    let mut s = String::new();
    let mut i: usize = 0;
    while i < n
        invariant
            n == bytes@.len(),
            i <= n,
            s@ == hex(bytes@.take(i as int)),
        decreases n - i,
    {
        assert(bytes@.take(i + 1).drop_last() =~= bytes@.take(i as int));
        s.push(digit(bytes[i] / 16));
        s.push(digit(bytes[i] % 16));
        i += 1;
    }
    assert(bytes@.take(n as int) =~= bytes@);
    s
}

// ---------------------------------------------------------------------------
// Laws
// ---------------------------------------------------------------------------

/// A digit character has the value of its digit.
proof fn lemma_digit_value(d: int)
    requires
        0 <= d < 10,
    ensures
        digit_value(digit_char(d)) == d,
        digit_char(d) != '+',
{
}

/// A number written in decimal reads back as that number, under any bound that
/// it keeps.
pub proof fn law_decimal_reads_back(n: nat, most: int)
    requires
        n <= most,
    ensures
        number_in(decimal(n), 10, most) == Some(n as int),
{
    lemma_decimal_digits(n);
}

/// What `decimal` writes: digits, the first of them no plus sign.
proof fn lemma_decimal_digits(n: nat)
    ensures
        decimal(n).len() > 0,
        decimal(n)[0] != '+',
        all_digits(decimal(n), 10),
        digits_value(decimal(n), 10) == n,
    decreases n,
{
    let s = decimal(n);
    let d = (n % 10) as int;
    lemma_digit_value(d);
    if n < 10 {
        assert(s.drop_last() =~= Seq::empty());
        assert(s.last() == digit_char(d));
        assert(digits_value(s.drop_last(), 10) == 0);
    } else {
        let t = decimal(n / 10);
        lemma_decimal_digits(n / 10);
        assert(s.drop_last() =~= t);
        assert forall|i: int| 0 <= i < s.len() implies 0 <= #[trigger] digit_value(s[i]) < 10 by {
            if i < t.len() {
                assert(s[i] == t[i]);
                assert(0 <= digit_value(t[i]) < 10);
            }
        }
    }
}

/// Different digits have different characters.
proof fn lemma_digits_differ(d: int, e: int)
    requires
        0 <= d < 16,
        0 <= e < 16,
        digit_char(d) == digit_char(e),
    ensures
        d == e,
{
    assert(digit_char(d) as int == if d < 10 {
        d + 48
    } else {
        d + 87
    });
    assert(digit_char(e) as int == if e < 10 {
        e + 48
    } else {
        e + 87
    });
}

/// Different bytes have different hexadecimal text.
pub proof fn law_hex_tells_apart(a: Seq<u8>, b: Seq<u8>)
    requires
        hex(a) == hex(b),
    ensures
        a == b,
    decreases a.len(),
{
    law_hex_length(a);
    law_hex_length(b);
    if a.len() == 0 {
        assert(a =~= b);
    } else {
        let n = hex(a).len();
        assert(hex(a)[n - 1] == hex(b)[n - 1]);
        assert(hex(a)[n - 2] == hex(b)[n - 2]);
        assert(hex(a).take(n - 2) =~= hex(a.drop_last()));
        assert(hex(b).take(n - 2) =~= hex(b.drop_last()));
        law_hex_tells_apart(a.drop_last(), b.drop_last());
        law_hex_length(a.drop_last());
        law_hex_length(b.drop_last());
        assert(hex(a)[n - 2] == digit_char((a.last() / 16) as int));
        assert(hex(b)[n - 2] == digit_char((b.last() / 16) as int));
        assert(hex(a)[n - 1] == digit_char((a.last() % 16) as int));
        assert(hex(b)[n - 1] == digit_char((b.last() % 16) as int));
        lemma_digits_differ((a.last() / 16) as int, (b.last() / 16) as int);
        lemma_digits_differ((a.last() % 16) as int, (b.last() % 16) as int);
        assert(a =~= a.drop_last().push(a.last()));
        assert(b =~= b.drop_last().push(b.last()));
    }
}

/// Hexadecimal text has two digits for each byte.
pub proof fn law_hex_length(bytes: Seq<u8>)
    ensures
        hex(bytes).len() == 2 * bytes.len(),
    decreases bytes.len(),
{
    if bytes.len() > 0 {
        law_hex_length(bytes.drop_last());
    }
}

/// Hexadecimal text is ASCII.
pub proof fn law_hex_is_ascii(bytes: Seq<u8>)
    ensures
        forall|i: int| 0 <= i < hex(bytes).len() ==> (#[trigger] hex(bytes)[i] as u32) < 0x80,
    decreases bytes.len(),
{
    if bytes.len() > 0 {
        law_hex_is_ascii(bytes.drop_last());
        let before = hex(bytes.drop_last());
        assert forall|i: int| 0 <= i < hex(bytes).len() implies (#[trigger] hex(bytes)[i] as u32)
            < 0x80 by {
            if i < before.len() {
                assert(hex(bytes)[i] == before[i]);
            }
        }
    }
}

} // verus!
