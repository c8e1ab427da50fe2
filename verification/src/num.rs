//! Decimal rendering and parsing of integers (`to_string` and `str::parse`).

use vstd::prelude::*;
use crate::text::{push_char, char_from_ascii, is_digit};

verus! {

/// The decimal digit character for `d < 10`.
pub open spec fn digit_char(d: nat) -> char {
    ((d + 48) as u32) as char
}

/// The value of a decimal digit character.
pub open spec fn digit_value(c: char) -> nat {
    ((c as u32) - 48) as nat
}

/// `n.to_string()` for a non-negative integer: its decimal digits, without
/// leading zeros.
pub open spec fn decimal(n: nat) -> Seq<char>
    decreases n,
{
    if n < 10 {
        seq![digit_char(n)]
    } else {
        decimal(n / 10).push(digit_char(n % 10))
    }
}

/// `n.to_string()` for a signed integer.
pub open spec fn signed_decimal(n: int) -> Seq<char> {
    if n < 0 {
        seq!['-'] + decimal((-n) as nat)
    } else {
        decimal(n as nat)
    }
}

/// The value of a string of decimal digits.
pub open spec fn digits_value(s: Seq<char>) -> nat
    decreases s.len(),
{
    if s.len() == 0 {
        0
    } else {
        digits_value(s.drop_last()) * 10 + digit_value(s.last())
    }
}

/// Whether every character of `s` is an ASCII digit.
pub open spec fn all_digits(s: Seq<char>) -> bool {
    forall|k: int| 0 <= k < s.len() ==> is_digit(#[trigger] s[k])
}

/// `str::parse::<u64>()` restricted to its accepted inputs: an optional `+`
/// followed by at least one digit, with a value that fits.
pub open spec fn unsigned_body(s: Seq<char>) -> Seq<char> {
    if s.len() > 0 && s[0] == '+' {
        s.drop_first()
    } else {
        s
    }
}

/// `str::parse::<T>()` for an unsigned `T` whose largest value is `max`.
pub open spec fn parse_unsigned(s: Seq<char>, max: nat) -> Option<nat> {
    let b = unsigned_body(s);
    if b.len() > 0 && all_digits(b) && digits_value(b) <= max {
        Some(digits_value(b))
    } else {
        None
    }
}

/// `str::parse::<T>()` for a signed `T` with range `[min, max]`.
pub open spec fn parse_signed(s: Seq<char>, min: int, max: int) -> Option<int> {
    if s.len() > 0 && s[0] == '-' {
        let b = s.drop_first();
        if b.len() > 0 && all_digits(b) && -(digits_value(b) as int) >= min {
            Some(-(digits_value(b) as int))
        } else {
            None
        }
    } else {
        match parse_unsigned(s, max as nat) {
            Some(v) => if max >= 0 { Some(v as int) } else { None },
            None => None,
        }
    }
}

proof fn lemma_decimal_digits(n: nat)
    ensures
        decimal(n).len() >= 1,
        all_digits(decimal(n)),
        digits_value(decimal(n)) == n,
    decreases n,
{
    assert(digit_value(digit_char(n % 10)) == n % 10);
    if n < 10 {
        assert(decimal(n).drop_last() =~= Seq::<char>::empty());
        assert(digits_value(decimal(n)) == digits_value(decimal(n).drop_last()) * 10 + digit_value(
            decimal(n).last(),
        ));
    } else {
        lemma_decimal_digits(n / 10);
        let d = decimal(n / 10);
        assert(decimal(n).drop_last() =~= d);
        assert(digits_value(decimal(n)) == digits_value(d) * 10 + digit_value(digit_char(n % 10)));
        assert(n == (n / 10) * 10 + n % 10);
        assert forall|k: int| 0 <= k < decimal(n).len() implies is_digit(#[trigger] decimal(n)[k]) by {
            if k < d.len() {
                assert(decimal(n)[k] == d[k]);
            }
        }
    }
}

/// Rendering then parsing gives the number back.
pub proof fn lemma_parse_decimal(n: nat, max: nat)
    requires
        n <= max,
    ensures
        parse_unsigned(decimal(n), max) == Some(n),
{
    lemma_decimal_digits(n);
    assert(unsigned_body(decimal(n)) == decimal(n)) by {
        if decimal(n)[0] == '+' {
            assert(is_digit(decimal(n)[0]));
        }
    }
}

/// `n.to_string()`.
pub fn u64_to_string(n: u64) -> (s: String)
    ensures
        s@ == decimal(n as nat),
    decreases n,
{
    if n < 10 {
        let mut s = String::new();
        push_char(&mut s, char_from_ascii((n as u32) + 48));
        assert(s@ =~= decimal(n as nat));
        s
    } else {
        let mut s = u64_to_string(n / 10);
        push_char(&mut s, char_from_ascii(((n % 10) as u32) + 48));
        s
    }
}

/// `n.to_string()` for a signed 64-bit integer.
pub fn i64_to_string(n: i64) -> (s: String)
    ensures
        s@ == signed_decimal(n as int),
{
    if n < 0 {
        let m: u64 = if n == i64::MIN { 9223372036854775808u64 } else { (-n) as u64 };
        let mut s = String::new();
        push_char(&mut s, '-');
        let t = u64_to_string(m);
        s.append(t.as_str());
        s
    } else {
        u64_to_string(n as u64)
    }
}

/// The value of the digit string `v[from..to]`, or `None` when it exceeds `max`.
fn digits_to_u64(v: &Vec<char>, from: usize, to: usize, max: u64) -> (r: Option<u64>)
    requires
        from <= to <= v.len(),
        all_digits(v@.subrange(from as int, to as int)),
    ensures
        match r {
            Some(x) => x as nat == digits_value(v@.subrange(from as int, to as int)) && x <= max,
            None => digits_value(v@.subrange(from as int, to as int)) > max,
        },
{
    let mut acc: u64 = 0;
    let mut i = from;
    assert(v@.subrange(from as int, from as int) =~= Seq::<char>::empty());
    while i < to
        invariant
            from <= i <= to <= v.len(),
            all_digits(v@.subrange(from as int, to as int)),
            acc as nat == digits_value(v@.subrange(from as int, i as int)),
            acc <= max,
        decreases to - i,
    {
        let ghost sub = v@.subrange(from as int, i + 1);
        assert(sub.drop_last() =~= v@.subrange(from as int, i as int));
        assert(sub.last() == v@[i as int]);
        assert(is_digit(v@.subrange(from as int, to as int)[i - from]));
        assert(v@.subrange(from as int, to as int)[i - from] == v@[i as int]);
        let d = (v[i] as u32 - 48) as u64;
        if d > max {
            assert(digits_value(v@.subrange(from as int, i + 1)) > max) by (nonlinear_arith)
                requires
                    digits_value(v@.subrange(from as int, i + 1)) == acc * 10 + d,
                    d > max,
                    acc >= 0;
            proof {
                lemma_prefix_value_monotone(v@.subrange(from as int, to as int), (i + 1 - from) as nat);
                assert(v@.subrange(from as int, to as int).take(i + 1 - from) =~= v@.subrange(from as int, i + 1));
            }
            return None;
        }
        if acc > (max - d) / 10 {
            assert(acc * 10 + d > max) by (nonlinear_arith)
                requires acc > (max - d) / 10, d <= max || d > max;
            assert(digits_value(v@.subrange(from as int, i + 1)) > max);
            proof {
                lemma_prefix_value_monotone(v@.subrange(from as int, to as int), (i + 1 - from) as nat);
                assert(v@.subrange(from as int, to as int).take(i + 1 - from) =~= v@.subrange(from as int, i + 1));
            }
            return None;
        }
        assert(acc * 10 + d <= max) by (nonlinear_arith)
            requires acc <= (max - d) / 10, d <= max;
        acc = acc * 10 + d;
        i = i + 1;
    }
    Some(acc)
}

/// A digit string is at least as large as any of its prefixes.
proof fn lemma_prefix_value_monotone(s: Seq<char>, k: nat)
    requires
        k <= s.len(),
        all_digits(s),
    ensures
        digits_value(s.take(k as int)) <= digits_value(s),
    decreases s.len(),
{
    if k < s.len() {
        assert(s.drop_last().take(k as int) =~= s.take(k as int));
        assert forall|j: int| 0 <= j < s.drop_last().len() implies is_digit(#[trigger] s.drop_last()[j]) by {
            assert(s.drop_last()[j] == s[j]);
        }
        lemma_prefix_value_monotone(s.drop_last(), k);
    } else {
        assert(s.take(k as int) =~= s);
    }
}

/// `str::parse::<u64>()` against the bound `max` (`u16::MAX`, `u32::MAX`, ...).
pub fn parse_unsigned_str(s: &str, max: u64) -> (r: Option<u64>)
    ensures
        match r {
            Some(x) => parse_unsigned(s@, max as nat) == Some(x as nat),
            None => parse_unsigned(s@, max as nat) is None,
        },
{
    let v = crate::text::chars_of(s);
    let from: usize = if v.len() > 0 && v[0] == '+' { 1 } else { 0 };
    assert(unsigned_body(s@) =~= v@.subrange(from as int, v.len() as int));
    if from >= v.len() {
        return None;
    }
    let mut i = from;
    while i < v.len()
        invariant
            from <= i <= v.len(),
            v@ == s@,
            unsigned_body(s@) == v@.subrange(from as int, v.len() as int),
            forall|k: int| from <= k < i ==> is_digit(#[trigger] v@[k]),
        decreases v.len() - i,
    {
        if !(v[i] >= '0' && v[i] <= '9') {
            assert(!is_digit(v@.subrange(from as int, v.len() as int)[i - from]));
            return None;
        }
        i = i + 1;
    }
    assert(all_digits(v@.subrange(from as int, v.len() as int))) by {
        assert forall|k: int| 0 <= k < v@.subrange(from as int, v.len() as int).len() implies is_digit(
            #[trigger] v@.subrange(from as int, v.len() as int)[k],
        ) by {
            assert(v@.subrange(from as int, v.len() as int)[k] == v@[from + k]);
        }
    }
    digits_to_u64(&v, from, v.len(), max)
}

} // verus!

verus! {

/// `str::parse::<i64>()`.
pub fn parse_i64_str(s: &str) -> (r: Option<i64>)
    ensures
        match r {
            Some(x) => parse_signed(s@, i64::MIN as int, i64::MAX as int) == Some(x as int),
            None => parse_signed(s@, i64::MIN as int, i64::MAX as int) is None,
        },
{
    let v = crate::text::chars_of(s);
    if v.len() > 0 && v[0] == '-' {
        let mut i: usize = 1;
        while i < v.len()
            invariant
                1 <= i <= v.len(),
                v@ == s@,
                forall|k: int| 1 <= k < i ==> is_digit(#[trigger] v@[k]),
            decreases v.len() - i,
        {
            if !(v[i] >= '0' && v[i] <= '9') {
                assert(!is_digit(s@.drop_first()[i - 1]));
                return None;
            }
            i = i + 1;
        }
        assert(s@.drop_first() =~= v@.subrange(1, v.len() as int));
        if v.len() == 1 {
            return None;
        }
        assert(all_digits(v@.subrange(1, v.len() as int))) by {
            assert forall|k: int| 0 <= k < v@.subrange(1, v.len() as int).len() implies is_digit(
                #[trigger] v@.subrange(1, v.len() as int)[k],
            ) by {
                assert(v@.subrange(1, v.len() as int)[k] == v@[1 + k]);
            }
        }
        match digits_to_u64(&v, 1, v.len(), 9223372036854775808u64) {
            None => None,
            Some(m) => {
                if m == 9223372036854775808u64 {
                    Some(i64::MIN)
                } else {
                    Some(-(m as i64))
                }
            },
        }
    } else {
        match parse_unsigned_str(s, 9223372036854775807u64) {
            Some(x) => Some(x as i64),
            None => None,
        }
    }
}

} // verus!
