//! Numbers in text: integers as `i32::from_str` reads them, and fixed-point
//! values counted in thousandths, written with four decimals.
use vstd::prelude::*;

use crate::text::{chars_of, decimal, digit_char, find};

verus! {

/// Whether a character is an ASCII digit.
pub open spec fn is_digit(c: char) -> bool {
    '0' <= c && c <= '9'
}

/// Whether every character is an ASCII digit.
pub open spec fn all_digits(s: Seq<char>) -> bool {
    forall|i: int| 0 <= i < s.len() ==> is_digit(#[trigger] s[i])
}

/// The value of one ASCII digit.
pub open spec fn digit_value(c: char) -> nat {
    ((c as int) - ('0' as int)) as nat
}

/// The value of a string of ASCII digits.
pub open spec fn digits_value(s: Seq<char>) -> nat
    decreases s.len(),
{
    if s.len() == 0 {
        0
    } else {
        digits_value(s.drop_last()) * 10 + digit_value(s.last())
    }
}

/// What `i32::from_str` reads: an optional sign, then at least one digit,
/// the value within the range of `i32`.
pub open spec fn parse_i32_spec(s: Seq<char>) -> Option<i32> {
    let neg = s.len() > 0 && s[0] == '-';
    let signed = s.len() > 0 && (s[0] == '-' || s[0] == '+');
    let body = if signed {
        s.skip(1)
    } else {
        s
    };
    if body.len() == 0 || !all_digits(body) {
        None
    } else {
        let v: int = if neg {
            -(digits_value(body) as int)
        } else {
            digits_value(body) as int
        };
        if i32::MIN <= v && v <= i32::MAX {
            Some(v as i32)
        } else {
            None
        }
    }
}

/// The digit at place `k` of a fraction, zero past its end.
pub open spec fn frac_digit(f: Seq<char>, k: int) -> nat {
    if 0 <= k < f.len() {
        digit_value(f[k])
    } else {
        0
    }
}

/// A decimal number in thousandths: digits, then optionally a point and
/// more digits, of which the first three count; `None` for anything else
/// or beyond the range of `u32`.
pub open spec fn parse_thousandths_spec(s: Seq<char>) -> Option<u32> {
    let (ip, fp, has_dot) = match find(s, "."@) {
        Some(i) => (s.take(i), s.skip(i + 1), true),
        None => (s, Seq::<char>::empty(), false),
    };
    if ip.len() == 0 || !all_digits(ip) || (has_dot && (fp.len() == 0 || !all_digits(fp))) {
        None
    } else {
        let v = digits_value(ip) * 1000 + frac_digit(fp, 0) * 100 + frac_digit(fp, 1) * 10
            + frac_digit(fp, 2);
        if v <= u32::MAX {
            Some(v as u32)
        } else {
            None
        }
    }
}

/// A value in thousandths written with four decimals, as `{:.4}` writes the
/// number it stands for.
pub open spec fn fixed4(v: nat) -> Seq<char> {
    decimal(v / 1000) + seq!['.', digit_char((v / 100) % 10), digit_char((v / 10) % 10), digit_char(v % 10), '0']
}

/// The character of a digit.
pub fn digit_char_exec(d: u128) -> (c: char)
    requires
        d < 10,
    ensures
        c == digit_char(d as nat),
{
    if d == 0 {
        '0'
    } else if d == 1 {
        '1'
    } else if d == 2 {
        '2'
    } else if d == 3 {
        '3'
    } else if d == 4 {
        '4'
    } else if d == 5 {
        '5'
    } else if d == 6 {
        '6'
    } else if d == 7 {
        '7'
    } else if d == 8 {
        '8'
    } else {
        '9'
    }
}

/// Appends the decimal notation of a large number.
pub fn push_decimal_wide(s: &mut String, n: u128)
    ensures
        final(s)@ == old(s)@ + decimal(n as nat),
    decreases n,
{
    if n < 10 {
        s.push(digit_char_exec(n));
        assert(decimal(n as nat) =~= seq![digit_char(n as nat)]);
    } else {
        push_decimal_wide(s, n / 10);
        s.push(digit_char_exec(n % 10));
        assert(s@ =~= old(s)@ + decimal(n as nat)) by {
            assert(decimal(n as nat) == decimal((n / 10) as nat).push(digit_char((n % 10) as nat)));
        }
    }
}

/// Appends a value in thousandths with four decimals (see `fixed4`).
pub fn push_fixed4(s: &mut String, v: u128)
    ensures
        final(s)@ == old(s)@ + fixed4(v as nat),
{
    push_decimal_wide(s, v / 1000);
    s.push('.');
    s.push(digit_char_exec((v / 100) % 10));
    s.push(digit_char_exec((v / 10) % 10));
    s.push(digit_char_exec(v % 10));
    s.push('0');
    assert(s@ =~= old(s)@ + fixed4(v as nat));
}

/// The value of a digit character.
fn digit_val(c: char) -> (d: u64)
    requires
        is_digit(c),
    ensures
        d == digit_value(c),
        d < 10,
{
    (c as u32 - '0' as u32) as u64
}

/// Reads the digits of `c[a..b]`: their value, or `None` when one is not
/// a digit or the value exceeds `limit`.
fn read_digits(c: &[char], a: usize, b: usize, limit: u64) -> (r: Option<u64>)
    requires
        a <= b <= c@.len(),
    ensures
        match r {
            Some(v) => all_digits(c@.subrange(a as int, b as int)) && v == digits_value(
                c@.subrange(a as int, b as int),
            ) && v <= limit,
            None => !all_digits(c@.subrange(a as int, b as int)) || digits_value(
                c@.subrange(a as int, b as int),
            ) > limit,
        },
{
    let ghost whole = c@.subrange(a as int, b as int);
    let mut acc: u128 = 0;
    let mut big = false;
    let mut i: usize = a;
    while i < b
        invariant
            a <= i <= b <= c@.len(),
            whole == c@.subrange(a as int, b as int),
            all_digits(c@.subrange(a as int, i as int)),
            !big ==> acc == digits_value(c@.subrange(a as int, i as int)) && acc <= limit,
            big ==> digits_value(c@.subrange(a as int, i as int)) > limit,
        decreases b - i,
    {
        let ch = c[i];
        if !('0' <= ch && ch <= '9') {
            assert(whole[(i - a) as int] == ch);
            return None;
        }
        let ghost pre = c@.subrange(a as int, i as int);
        assert(c@.subrange(a as int, i + 1) =~= pre.push(ch));
        assert(c@.subrange(a as int, i + 1).drop_last() =~= pre);
        if !big {
            let d = digit_val(ch) as u128;
            let next = acc * 10 + d;
            if next > limit as u128 {
                big = true;
            } else {
                acc = next;
            }
        }
        i = i + 1;
    }
    if big {
        None
    } else {
        Some(acc as u64)
    }
}

/// Whether `c[a..b]` holds only ASCII digits.
fn digits_only(c: &[char], a: usize, b: usize) -> (r: bool)
    requires
        a <= b <= c@.len(),
    ensures
        r == all_digits(c@.subrange(a as int, b as int)),
{
    let mut i: usize = a;
    while i < b
        invariant
            a <= i <= b <= c@.len(),
            all_digits(c@.subrange(a as int, i as int)),
        decreases b - i,
    {
        if !('0' <= c[i] && c[i] <= '9') {
            assert(c@.subrange(a as int, b as int)[(i - a) as int] == c@[i as int]);
            return false;
        }
        assert(c@.subrange(a as int, i + 1) =~= c@.subrange(a as int, i as int).push(c@[i as int]));
        i = i + 1;
    }
    true
}

/// What `usize::from_str` reads: an optional `+`, then at least one digit,
/// the value within the range of `usize`.
pub open spec fn parse_usize_spec(s: Seq<char>) -> Option<usize> {
    let body = if s.len() > 0 && s[0] == '+' {
        s.skip(1)
    } else {
        s
    };
    if body.len() == 0 || !all_digits(body) || digits_value(body) > usize::MAX {
        None
    } else {
        Some(digits_value(body) as usize)
    }
}

/// Reads a `usize` as `usize::from_str` does (see `parse_usize_spec`).
pub fn parse_usize(s: &str) -> (r: Option<usize>)
    ensures
        r == parse_usize_spec(s@),
{
    let c = chars_of(s);
    let n: usize = c.len();
    let start: usize = if n > 0 && c[0] == '+' {
        1
    } else {
        0
    };
    assert(c@.subrange(start as int, n as int) =~= (if s@.len() > 0 && s@[0] == '+' {
        s@.skip(1)
    } else {
        s@
    }));
    if start == n {
        return None;
    }
    match read_digits(c.as_slice(), start, n, usize::MAX as u64) {
        None => None,
        Some(v) => Some(v as usize),
    }
}

/// Reads an `i32` as `i32::from_str` does (see `parse_i32_spec`).
pub fn parse_i32(s: &str) -> (r: Option<i32>)
    ensures
        r == parse_i32_spec(s@),
{
    let c = chars_of(s);
    let n: usize = c.len();
    let neg = n > 0 && c[0] == '-';
    let signed = n > 0 && (c[0] == '-' || c[0] == '+');
    let start: usize = if signed {
        1
    } else {
        0
    };
    assert(c@.subrange(start as int, n as int) =~= (if signed {
        s@.skip(1)
    } else {
        s@
    }));
    if start == n {
        return None;
    }
    match read_digits(c.as_slice(), start, n, 2147483648) {
        None => None,
        Some(v) => {
            if neg {
                Some((0 - (v as i64)) as i32)
            } else if v <= 2147483647 {
                Some(v as i32)
            } else {
                None
            }
        },
    }
}

/// Reads a decimal number in thousandths (see `parse_thousandths_spec`).
pub fn parse_thousandths(s: &str) -> (r: Option<u32>)
    ensures
        r == parse_thousandths_spec(s@),
{
    let c = chars_of(s);
    let n: usize = c.len();
    let dot = chars_of(".");
    proof {
        reveal_strlit(".");
    }
    let (ie, fs, has_dot) = match crate::text::find_exec(c.as_slice(), dot.as_slice()) {
        Some(i) => {
            proof {
                crate::text::lemma_find_from(s@, "."@, 0);
            }
            (i, i + 1, true)
        },
        None => (n, n, false),
    };
    assert(c@.subrange(0, ie as int) =~= (if has_dot {
        s@.take(ie as int)
    } else {
        s@
    }));
    assert(c@.subrange(fs as int, n as int) =~= (if has_dot {
        s@.skip(ie + 1)
    } else {
        Seq::<char>::empty()
    }));
    if ie == 0 {
        return None;
    }
    if has_dot && fs == n {
        return None;
    }
    let ip = match read_digits(c.as_slice(), 0, ie, 4294968) {
        Some(v) => v,
        None => {
            return None;
        },
    };
    let ghost f = c@.subrange(fs as int, n as int);
    if !digits_only(c.as_slice(), fs, n) {
        return None;
    }
    let f0: u64 = if fs < n && '0' <= c[fs] && c[fs] <= '9' {
        digit_val(c[fs])
    } else {
        0
    };
    let f1: u64 = if n - fs > 1 && '0' <= c[fs + 1] && c[fs + 1] <= '9' {
        digit_val(c[fs + 1])
    } else {
        0
    };
    let f2: u64 = if n - fs > 2 && '0' <= c[fs + 2] && c[fs + 2] <= '9' {
        digit_val(c[fs + 2])
    } else {
        0
    };
    proof {
        if all_digits(f) {
            if fs < n {
                assert(f[0] == c@[fs as int]);
            }
            if fs + 1 < n {
                assert(f[1] == c@[fs + 1]);
            }
            if fs + 2 < n {
                assert(f[2] == c@[fs + 2]);
            }
        }
    }
    let v = ip * 1000 + f0 * 100 + f1 * 10 + f2;
    if v <= 0xffff_ffff {
        Some(v as u32)
    } else {
        None
    }
}

/// A value in thousandths written with two decimals, the third rounded
/// half up.
pub open spec fn fixed2(v: nat) -> Seq<char> {
    let h = (v + 5) / 10;
    decimal(h / 100) + seq!['.', digit_char((h / 10) % 10), digit_char(h % 10)]
}

/// Appends a value in thousandths with two decimals (see `fixed2`).
pub fn push_fixed2(s: &mut String, v: u128)
    ensures
        final(s)@ == old(s)@ + fixed2(v as nat),
{
    let h = v / 10 + (if v % 10 >= 5 {
        1u128
    } else {
        0u128
    });
    assert(h == (v + 5) / 10);
    push_decimal_wide(s, h / 100);
    s.push('.');
    s.push(digit_char_exec((h / 10) % 10));
    s.push(digit_char_exec(h % 10));
    assert(s@ =~= old(s)@ + fixed2(v as nat));
}

/// A value in thousandths written as `Display` writes the number it stands
/// for: the whole part, then, where there is a fraction, a point and its
/// digits without trailing zeros.
pub open spec fn short3(v: nat) -> Seq<char> {
    let f = v % 1000;
    decimal(v / 1000) + if f == 0 {
        Seq::empty()
    } else if f % 100 == 0 {
        seq!['.', digit_char(f / 100)]
    } else if f % 10 == 0 {
        seq!['.', digit_char(f / 100), digit_char((f / 10) % 10)]
    } else {
        seq!['.', digit_char(f / 100), digit_char((f / 10) % 10), digit_char(f % 10)]
    }
}

/// A value in hundredths written as `Display` writes the number it stands
/// for (see `short3`).
pub open spec fn short2(v: nat) -> Seq<char> {
    let f = v % 100;
    decimal(v / 100) + if f == 0 {
        Seq::empty()
    } else if f % 10 == 0 {
        seq!['.', digit_char(f / 10)]
    } else {
        seq!['.', digit_char(f / 10), digit_char(f % 10)]
    }
}

/// Appends a value in thousandths (see `short3`).
pub fn push_short3(s: &mut String, v: u128)
    ensures
        final(s)@ == old(s)@ + short3(v as nat),
{
    push_decimal_wide(s, v / 1000);
    let f = v % 1000;
    if f != 0 {
        s.push('.');
        s.push(digit_char_exec(f / 100));
        if f % 100 != 0 {
            s.push(digit_char_exec((f / 10) % 10));
            if f % 10 != 0 {
                s.push(digit_char_exec(f % 10));
            }
        }
    }
    assert(s@ =~= old(s)@ + short3(v as nat));
}

/// Appends a value in hundredths (see `short2`).
pub fn push_short2(s: &mut String, v: u128)
    ensures
        final(s)@ == old(s)@ + short2(v as nat),
{
    push_decimal_wide(s, v / 100);
    let f = v % 100;
    if f != 0 {
        s.push('.');
        s.push(digit_char_exec(f / 10));
        if f % 10 != 0 {
            s.push(digit_char_exec(f % 10));
        }
    }
    assert(s@ =~= old(s)@ + short2(v as nat));
}

} // verus!

