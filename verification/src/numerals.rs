//! Numbers as text: rendering in decimal and hexadecimal, and reading back.

use vstd::prelude::*;
use vstd::string::StringExecFns;
use crate::text::{chars_of, starts_with};

verus! {

/// The character of a digit below sixteen.
pub open spec fn digit_char(d: int) -> char {
    if d < 10 {
        ('0' as u32 + d) as char
    } else {
        ('a' as u32 + (d - 10)) as char
    }
}

/// The digits of a natural number in a base, most significant first, with no
/// leading zero.
pub open spec fn digits(n: int, base: int) -> Seq<char>
    decreases n,
{
    if base < 2 || n < base {
        seq![digit_char(n)]
    } else {
        proof {
            vstd::arithmetic::div_mod::lemma_div_decreases(n, base);
        }
        digits(n / base, base).push(digit_char(n % base))
    }
}

/// A whole number in decimal, with a minus sign in front where it is negative.
pub open spec fn decimal(n: int) -> Seq<char> {
    if n < 0 {
        seq!['-'] + digits(-n, 10)
    } else {
        digits(n, 10)
    }
}

/// A natural number in hexadecimal, in small letters.
pub open spec fn hex(n: int) -> Seq<char> {
    digits(n, 16)
}

/// The value of a digit character in a base, where it is one; both cases of a
/// letter count.
pub open spec fn digit_value(c: char, base: int) -> Option<int> {
    let d = if '0' <= c <= '9' {
        c as int - '0' as int
    } else if 'a' <= c <= 'z' {
        c as int - 'a' as int + 10
    } else if 'A' <= c <= 'Z' {
        c as int - 'A' as int + 10
    } else {
        base
    };
    if d < base {
        Some(d)
    } else {
        None
    }
}

/// The number that a run of digits writes, where every character is a digit.
pub open spec fn value(s: Seq<char>, base: int) -> Option<int>
    decreases s.len(),
{
    if s.len() == 0 {
        Some(0)
    } else {
        match (value(s.drop_last(), base), digit_value(s.last(), base)) {
            (Some(high), Some(low)) => Some(high * base + low),
            _ => None,
        }
    }
}

/// What an unsigned number of at most `max` reads as: at least one digit, after a
/// plus sign or nothing.
pub open spec fn parse_unsigned(s: Seq<char>, base: int, max: int) -> Option<int> {
    let body = if starts_with(s, seq!['+']) {
        s.skip(1)
    } else {
        s
    };
    match value(body, base) {
        Some(n) if body.len() > 0 && n <= max => Some(n),
        _ => None,
    }
}

/// What a decimal number between `min` and `max` reads as: at least one digit,
/// after a sign or nothing.
pub open spec fn parse_signed(s: Seq<char>, min: int, max: int) -> Option<int> {
    if starts_with(s, seq!['-']) {
        match value(s.skip(1), 10) {
            Some(n) if s.len() > 1 && -n >= min => Some(-n),
            _ => None,
        }
    } else {
        parse_unsigned(s, 10, max)
    }
}

/// The character of a digit below sixteen.
fn digit_to_char(d: u8) -> (r: char)
    requires
        d < 16,
    ensures
        r == digit_char(d as int),
{
    if d < 10 {
        (48 + d) as char
    } else {
        (97 + (d - 10)) as char
    }
}

/// The digits of a natural number in a base.
fn digits_of(n: u64, base: u64) -> (r: String)
    requires
        2 <= base <= 16,
    ensures
        r@ == digits(n as int, base as int),
    decreases n,
{
    if n < base {
        let mut s = String::new();
        s.push(digit_to_char(n as u8));
        assert(s@ =~= seq![digit_char(n as int)]);
        s
    } else {
        proof {
            vstd::arithmetic::div_mod::lemma_div_decreases(n as int, base as int);
            vstd::arithmetic::div_mod::lemma_mod_bound(n as int, base as int);
        }
        let mut s = digits_of(n / base, base);
        s.push(digit_to_char((n % base) as u8));
        s
    }
}

/// A natural number in decimal.
pub fn decimal_of(n: u64) -> (r: String)
    ensures
        r@ == decimal(n as int),
{
    digits_of(n, 10)
}

/// A natural number of up to 128 bits in decimal.
pub fn wide_decimal_of(n: u128) -> (r: String)
    ensures
        r@ == decimal(n as int),
    decreases n,
{
    if n < 10 {
        digits_of(n as u64, 10)
    } else {
        let mut s = wide_decimal_of(n / 10);
        s.push(digit_to_char((n % 10) as u8));
        s
    }
}

/// A whole number in decimal.
pub fn signed_decimal_of(n: i64) -> (r: String)
    ensures
        r@ == decimal(n as int),
{
    if n >= 0 {
        digits_of(n as u64, 10)
    } else {
        let magnitude: u64 = if n == i64::MIN {
            0x8000_0000_0000_0000
        } else {
            (-n) as u64
        };
        let mut s = String::new();
        s.push('-');
        assert(s@ =~= seq!['-']);
        s.append(&digits_of(magnitude, 10));
        s
    }
}

/// A natural number in hexadecimal.
pub fn hex_of(n: u64) -> (r: String)
    ensures
        r@ == hex(n as int),
{
    digits_of(n, 16)
}

/// The value of a digit character in a base.
fn digit_of(c: char, base: u64) -> (r: Option<u64>)
    requires
        2 <= base <= 36,
    ensures
        match r {
            Some(d) => digit_value(c, base as int) == Some(d as int) && d < base,
            None => digit_value(c, base as int) is None,
        },
{
    let d: u64 = if '0' <= c && c <= '9' {
        (c as u64) - 48
    } else if 'a' <= c && c <= 'z' {
        (c as u64) - 97 + 10
    } else if 'A' <= c && c <= 'Z' {
        (c as u64) - 65 + 10
    } else {
        base
    };
    if d < base {
        Some(d)
    } else {
        None
    }
}

/// A longer run of digits writes no smaller a number.
proof fn value_grows(s: Seq<char>, base: int, k: int)
    requires
        base >= 2,
        0 <= k <= s.len(),
        value(s, base) is Some,
    ensures
        value(s.take(k), base) is Some,
        0 <= value(s.take(k), base)->0 <= value(s, base)->0,
    decreases s.len(),
{
    if s.len() == 0 {
        assert(s.take(k) =~= s);
    } else if k == s.len() {
        assert(s.take(k) =~= s);
        value_grows(s.drop_last(), base, k - 1);
        let high = value(s.drop_last(), base)->0;
        assert(high * base >= 0) by (nonlinear_arith)
            requires
                high >= 0,
                base >= 2,
        ;
    } else {
        value_grows(s.drop_last(), base, k);
        assert(s.drop_last().take(k) =~= s.take(k));
        let high = value(s.drop_last(), base)->0;
        assert(high * base >= high) by (nonlinear_arith)
            requires
                high >= 0,
                base >= 2,
        ;
    }
}

/// The number that the characters from `from` on write, where all of them are
/// digits and it is at most `max`.
fn value_of(v: &[char], from: usize, base: u64, max: u64) -> (r: Option<u64>)
    requires
        from <= v@.len(),
        2 <= base <= 36,
    ensures
        match r {
            Some(n) => value(v@.skip(from as int), base as int) == Some(n as int) && n <= max,
            None => match value(v@.skip(from as int), base as int) {
                Some(n) => n > max,
                None => true,
            },
        },
{
    let ghost body = v@.skip(from as int);
    let mut n: u64 = 0;
    let mut i: usize = from;
    while i < v.len()
        invariant
            from <= i <= v@.len(),
            2 <= base <= 36,
            body == v@.skip(from as int),
            value(body.take(i - from), base as int) == Some(n as int),
            n <= max,
        decreases v@.len() - i,
    {
        let ghost part = body.take(i + 1 - from);
        assert(part.drop_last() =~= body.take(i - from));
        assert(part.last() == v@[i as int]);
        let d: u64 = match digit_of(v[i], base) {
            Some(d) => d,
            None => {
                proof {
                    if value(body, base as int) is Some {
                        value_grows(body, base as int, i + 1 - from);
                    }
                }
                return None;
            },
        };
        assert((n as u128) * (base as u128) <= 0xffff_ffff_ffff_ffff * 36) by (nonlinear_arith)
            requires
                n <= 0xffff_ffff_ffff_ffff,
                base <= 36,
        ;
        let next: u128 = (n as u128) * (base as u128) + (d as u128);
        if next > max as u128 {
            proof {
                if value(body, base as int) is Some {
                    value_grows(body, base as int, i + 1 - from);
                }
            }
            return None;
        }
        n = next as u64;
        i = i + 1;
    }
    assert(body.take(i - from) =~= body);
    Some(n)
}

proof fn sign_is_first(s: Seq<char>, c: char)
    ensures
        starts_with(s, seq![c]) == (s.len() > 0 && s[0] == c),
{
    if s.len() > 0 {
        assert(s.subrange(0, 1) =~= seq![s[0]]);
        assert(seq![s[0]][0] == s[0]);
        assert(seq![c][0] == c);
    }
}

/// Reading an unsigned number of at most `max`.
pub fn unsigned_of(s: &str, base: u64, max: u64) -> (r: Option<u64>)
    requires
        2 <= base <= 36,
    ensures
        match r {
            Some(n) => parse_unsigned(s@, base as int, max as int) == Some(n as int) && n <= max,
            None => parse_unsigned(s@, base as int, max as int) is None,
        },
{
    let v = chars_of(s);
    proof {
        sign_is_first(s@, '+');
        assert(s@.skip(0) =~= s@);
    }
    let from: usize = if v.len() > 0 && v[0] == '+' {
        1
    } else {
        0
    };
    if v.len() == from {
        return None;
    }
    value_of(&v, from, base, max)
}

/// Reading a decimal number between `min` and `max`.
pub fn signed_of(s: &str, min: i64, max: i64) -> (r: Option<i64>)
    requires
        min <= 0 <= max,
    ensures
        match r {
            Some(n) => parse_signed(s@, min as int, max as int) == Some(n as int) && min <= n
                <= max,
            None => parse_signed(s@, min as int, max as int) is None,
        },
{
    let v = chars_of(s);
    proof {
        sign_is_first(s@, '-');
    }
    if v.len() > 0 && v[0] == '-' {
        if v.len() == 1 {
            return None;
        }
        let room: u64 = if min == i64::MIN {
            0x8000_0000_0000_0000
        } else {
            (-min) as u64
        };
        match value_of(&v, 1, 10, room) {
            Some(n) => if n == 0x8000_0000_0000_0000 {
                Some(i64::MIN)
            } else {
                Some(-(n as i64))
            },
            None => None,
        }
    } else {
        match unsigned_of(s, 10, max as u64) {
            Some(n) => Some(n as i64),
            None => None,
        }
    }
}

/// What is rendered in a base reads back as itself.
pub proof fn digits_read_back(n: int, base: int)
    requires
        0 <= n,
        2 <= base <= 16,
    ensures
        value(digits(n, base), base) == Some(n),
        digits(n, base).len() > 0,
        !starts_with(digits(n, base), seq!['+']),
        !starts_with(digits(n, base), seq!['-']),
    decreases n,
{
    let s = digits(n, base);
    sign_is_first(s, '+');
    sign_is_first(s, '-');
    if n < base {
        assert(s.drop_last() =~= Seq::empty());
        assert(s.last() == digit_char(n));
        assert(value(s.drop_last(), base) == Some(0int));
        assert(0 * base == 0);
    } else {
        vstd::arithmetic::div_mod::lemma_div_decreases(n, base);
        vstd::arithmetic::div_mod::lemma_mod_bound(n, base);
        vstd::arithmetic::div_mod::lemma_fundamental_div_mod(n, base);
        vstd::arithmetic::div_mod::lemma_div_pos_is_pos(n, base);
        let high = digits(n / base, base);
        digits_read_back(n / base, base);
        sign_is_first(high, '+');
        sign_is_first(high, '-');
        assert(s.drop_last() =~= high);
        assert(s[0] == high[0]);
        assert((n / base) * base == base * (n / base)) by (nonlinear_arith);
    }
}

/// A number in decimal is made of digits alone.
pub proof fn digits_have_no_space_or_letter(n: int)
    requires
        0 <= n,
    ensures
        forall|i: int| 0 <= i < digits(n, 10).len() ==> '0' <= #[trigger] digits(n, 10)[i] <= '9',
        digits(n, 10).len() > 0,
    decreases n,
{
    if n >= 10 {
        digits_have_no_space_or_letter(n / 10);
    }
}

/// A rendered number holds no whitespace.
pub proof fn digits_are_visible(n: int, base: int)
    requires
        0 <= n,
        2 <= base <= 16,
    ensures
        digits(n, base).len() > 0,
        forall|i: int|
            0 <= i < digits(n, base).len() ==> !crate::text::is_white(#[trigger] digits(n, base)[i]),
    decreases n,
{
    if n >= base {
        vstd::arithmetic::div_mod::lemma_div_decreases(n, base);
        vstd::arithmetic::div_mod::lemma_mod_bound(n, base);
        vstd::arithmetic::div_mod::lemma_div_pos_is_pos(n, base);
        digits_are_visible(n / base, base);
    }
}

/// A rendered number reads back as itself, wherever it is in range.
pub proof fn decimal_reads_back(n: int, min: int, max: int)
    requires
        min <= n <= max,
        min <= 0 <= max,
    ensures
        parse_signed(decimal(n), min, max) == Some(n),
        n >= 0 ==> parse_unsigned(decimal(n), 10, max) == Some(n),
{
    if n < 0 {
        digits_read_back(-n, 10);
        sign_is_first(decimal(n), '-');
        assert(decimal(n).skip(1) =~= digits(-n, 10));
    } else {
        digits_read_back(n, 10);
    }
}

/// What has no digit, or has a character that is none behind its sign, is no number: neither
/// nothing at all, nor a sign alone, nor a number with anything behind it.
pub proof fn only_digits_behind_a_sign_are_a_number(
    s: Seq<char>,
    c: char,
    base: int,
    min: int,
    max: int,
)
    requires
        digit_value(c, base) is None,
        base == 10,
        c != '+' && c != '-',
    ensures
        parse_unsigned(Seq::empty(), base, max) is None,
        parse_unsigned(seq!['+'], base, max) is None,
        parse_signed(seq!['-'], min, max) is None,
        parse_unsigned(s.push(c), base, max) is None,
        parse_signed(s.push(c), min, max) is None,
{
    let plus = seq!['+'];
    let minus = seq!['-'];
    sign_is_first(Seq::empty(), '+');
    sign_is_first(plus, '+');
    sign_is_first(minus, '-');
    assert(plus.skip(1) =~= Seq::empty());
    assert(minus.skip(1) =~= Seq::empty());
    let text = s.push(c);
    sign_is_first(text, '+');
    sign_is_first(text, '-');
    assert(text.drop_last() =~= s);
    assert(value(text, base) is None);
    if s.len() > 0 {
        let rest = text.skip(1);
        assert(rest.last() == c);
        assert(value(rest, base) is None);
    }
}

/// A number above the largest, or below the least, is none: what is read is within them.
pub proof fn a_number_read_is_within_its_bounds(s: Seq<char>, base: int, min: int, max: int)
    ensures
        parse_unsigned(s, base, max) is Some ==> parse_unsigned(s, base, max)->0 <= max,
        parse_signed(s, min, max) is Some && s.len() > 0 && s[0] == '-' ==> parse_signed(
            s,
            min,
            max,
        )->0 >= min,
{
    sign_is_first(s, '-');
}

} // verus!
