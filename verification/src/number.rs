//! Numbers written as text, read the way the standard library reads them.

use crate::text::chars_of;
use vstd::prelude::*;

verus! {

/// The value of the digit `c` in base `radix`: `0` to `9`, then the letters
/// in either case, as far as the base reaches.
pub open spec fn digit(c: char, radix: int) -> Option<int> {
    let v = c as int;
    let d = if 0x30 <= v <= 0x39 {
        v - 0x30
    } else if 0x41 <= v <= 0x5A {
        v - 0x41 + 10
    } else if 0x61 <= v <= 0x7A {
        v - 0x61 + 10
    } else {
        -1
    };
    if 0 <= d < radix {
        Some(d)
    } else {
        None
    }
}

/// Whether every character of `s` is a digit in base `radix`.
pub open spec fn all_digits(s: Seq<char>, radix: int) -> bool {
    forall|i: int| 0 <= i < s.len() ==> (#[trigger] digit(s[i], radix)) is Some
}

/// The number that the digits `s` spell in base `radix`; a character that is
/// no digit counts as zero.
pub open spec fn digits_value(s: Seq<char>, radix: int) -> int
    decreases s.len(),
{
    if s.len() == 0 {
        0
    } else {
        radix * digits_value(s.drop_last(), radix) + (match digit(s.last(), radix) {
            Some(d) => d,
            None => 0,
        })
    }
}

/// The number that `s` spells in base `radix`, if `s` is at least one digit
/// and nothing else and the number is at most `max`.
pub open spec fn unsigned(s: Seq<char>, radix: int, max: int) -> Option<int> {
    if s.len() > 0 && all_digits(s, radix) && digits_value(s, radix) <= max {
        Some(digits_value(s, radix))
    } else {
        None
    }
}

/// `s` without one leading plus sign.
pub open spec fn unsigned_digits(s: Seq<char>) -> Seq<char> {
    if s.len() > 0 && s[0] == '+' {
        s.subrange(1, s.len() as int)
    } else {
        s
    }
}

/// Whether `s` begins with a minus sign.
pub open spec fn is_negative(s: Seq<char>) -> bool {
    s.len() > 0 && s[0] == '-'
}

/// `s` without one leading plus or minus sign.
pub open spec fn signed_digits(s: Seq<char>) -> Seq<char> {
    if s.len() > 0 && (s[0] == '+' || s[0] == '-') {
        s.subrange(1, s.len() as int)
    } else {
        s
    }
}

/// `s` without the marks `0x` at its start, however many there are.
pub open spec fn without_hex_marks(s: Seq<char>) -> Seq<char>
    decreases s.len(),
{
    if s.len() >= 2 && s[0] == '0' && s[1] == 'x' {
        without_hex_marks(s.subrange(2, s.len() as int))
    } else {
        s
    }
}

/// The 32-bit number that `s` spells in base 16: an optional plus sign, then
/// at least one digit and nothing else, the value within 32 bits.
pub open spec fn hex_u32(s: Seq<char>) -> Option<u32> {
    match unsigned(unsigned_digits(s), 16, u32::MAX as int) {
        Some(value) => Some(value as u32),
        None => None,
    }
}

/// The byte that `s` spells in base 16 behind any marks `0x`: an optional
/// plus sign, then at least one digit and nothing else, the value within
/// eight bits.
pub open spec fn hex_u8(s: Seq<char>) -> Option<u8> {
    match unsigned(unsigned_digits(without_hex_marks(s)), 16, u8::MAX as int) {
        Some(value) => Some(value as u8),
        None => None,
    }
}

/// The signed byte that `s` spells in base 10: an optional sign, then at
/// least one digit and nothing else, the value from -128 to 127.
pub open spec fn decimal_i8(s: Seq<char>) -> Option<i8> {
    if is_negative(s) {
        match unsigned(signed_digits(s), 10, 128) {
            Some(value) => Some((-value) as i8),
            None => None,
        }
    } else {
        match unsigned(signed_digits(s), 10, 127) {
            Some(value) => Some(value as i8),
            None => None,
        }
    }
}

/// Digits spell no negative number.
pub proof fn lemma_digits_value_nonnegative(s: Seq<char>, radix: int)
    requires
        radix >= 1,
    ensures
        0 <= digits_value(s, radix),
    decreases s.len(),
{
    if s.len() > 0 {
        lemma_digits_value_nonnegative(s.drop_last(), radix);
        let rest = digits_value(s.drop_last(), radix);
        assert(radix * rest >= 0) by (nonlinear_arith)
            requires
                radix >= 1,
                rest >= 0,
        ;
    }
}

/// More digits never spell a smaller number.
pub proof fn lemma_digits_value_grows(s: Seq<char>, radix: int, i: int)
    requires
        radix >= 1,
        0 <= i <= s.len(),
    ensures
        0 <= digits_value(s.subrange(0, i), radix) <= digits_value(s, radix),
    decreases s.len() - i,
{
    lemma_digits_value_nonnegative(s.subrange(0, i), radix);
    if i < s.len() {
        let t = s.subrange(0, i + 1);
        assert(t.drop_last() =~= s.subrange(0, i));
        let rest = digits_value(s.subrange(0, i), radix);
        assert(radix * rest >= rest) by (nonlinear_arith)
            requires
                radix >= 1,
                rest >= 0,
        ;
        lemma_digits_value_grows(s, radix, i + 1);
    } else {
        assert(s.subrange(0, i) =~= s);
    }
}

/// The value of the digit `c` in base `radix`.
pub fn digit_value(c: char, radix: u32) -> (r: Option<u32>)
    requires
        2 <= radix <= 36,
    ensures
        match digit(c, radix as int) {
            Some(d) => r == Some(d as u32),
            None => r is None,
        },
{
    let v: u32 = c as u32;
    let d: u32 = if 0x30 <= v && v <= 0x39 {
        v - 0x30
    } else if 0x41 <= v && v <= 0x5A {
        v - 0x41 + 10
    } else if 0x61 <= v && v <= 0x7A {
        v - 0x61 + 10
    } else {
        return None;
    };
    if d < radix {
        Some(d)
    } else {
        None
    }
}

/// The number that the characters of `s` from `from` on spell in base
/// `radix`, if they are at least one digit and nothing else and the number
/// is at most `max`.
pub fn parse_unsigned(s: &[char], from: usize, radix: u32, max: u32) -> (r: Option<u32>)
    requires
        from <= s.len(),
        2 <= radix <= 36,
    ensures
        match unsigned(s@.subrange(from as int, s.len() as int), radix as int, max as int) {
            Some(value) => r == Some(value as u32),
            None => r is None,
        },
        r matches Some(value) ==> value <= max && value == digits_value(
            s@.subrange(from as int, s.len() as int),
            radix as int,
        ),
{
    let n: usize = s.len();
    let ghost digits = s@.subrange(from as int, n as int);
    if from == n {
        return None;
    }
    let mut acc: u64 = 0;
    let mut i: usize = from;
    while i < n
        invariant
            from <= i <= n,
            n == s.len(),
            2 <= radix <= 36,
            digits == s@.subrange(from as int, n as int),
            all_digits(digits.subrange(0, i - from), radix as int),
            acc == digits_value(digits.subrange(0, i - from), radix as int),
            acc <= max,
        decreases n - i,
    {
        let ghost before = digits.subrange(0, i - from);
        let ghost after = digits.subrange(0, i + 1 - from);
        proof {
            assert(after.drop_last() =~= before);
            assert(after.last() == s@[i as int]);
            assert(digits[i - from] == s@[i as int]);
            assert(digits_value(after, radix as int) == radix * digits_value(before, radix as int)
                + (match digit(s@[i as int], radix as int) {
                Some(d) => d,
                None => 0,
            }));
        }
        match digit_value(s[i], radix) {
            None => {
                assert(digit(digits[i - from], radix as int) is None);
                return None;
            },
            Some(d) => {
                assert((radix as u64) * acc <= 36 * 0xFFFF_FFFF) by (nonlinear_arith)
                    requires
                        acc <= 0xFFFF_FFFF,
                        radix <= 36,
                ;
                let next: u64 = (radix as u64) * acc + d as u64;
                if next > max as u64 {
                    proof {
                        lemma_digits_value_grows(digits, radix as int, i + 1 - from);
                    }
                    return None;
                }
                proof {
                    assert forall|k: int| 0 <= k < after.len() implies (#[trigger] digit(
                        after[k],
                        radix as int,
                    )) is Some by {
                        if k < before.len() {
                            assert(after[k] == before[k]);
                        }
                    }
                }
                acc = next;
            },
        }
        i += 1;
    }
    proof {
        assert(digits.subrange(0, n - from) =~= digits);
    }
    Some(acc as u32)
}

/// The 32-bit number that the characters of `s` from `from` on spell in base
/// 16, as `u32::from_str_radix` reads it.
pub fn parse_hex_u32(s: &[char], from: usize) -> (r: Option<u32>)
    requires
        from <= s.len(),
    ensures
        r == hex_u32(s@.subrange(from as int, s.len() as int)),
{
    let n: usize = s.len();
    let start: usize = if from < n && s[from] == '+' {
        from + 1
    } else {
        from
    };
    proof {
        let whole = s@.subrange(from as int, n as int);
        assert(unsigned_digits(whole) =~= s@.subrange(start as int, n as int));
    }
    parse_unsigned(s, start, 16, u32::MAX)
}

/// The byte that `text` spells in base 16 behind any marks `0x`, as
/// `u8::from_str_radix` reads what `trim_start_matches("0x")` leaves.
pub fn parse_hex_u8(text: &str) -> (r: Option<u8>)
    ensures
        r == hex_u8(text@),
{
    let chars = chars_of(text);
    let n: usize = chars.len();
    let mut k: usize = 0;
    proof {
        assert(chars@.subrange(0, n as int) =~= chars@);
    }
    while k < n && n - k >= 2 && chars[k] == '0' && chars[k + 1] == 'x'
        invariant
            n == chars.len(),
            k <= n,
            without_hex_marks(chars@) == without_hex_marks(chars@.subrange(k as int, n as int)),
        decreases n - k,
    {
        proof {
            let here = chars@.subrange(k as int, n as int);
            assert(here[0] == chars@[k as int] && here[1] == chars@[k + 1]);
            assert(here.subrange(2, here.len() as int) =~= chars@.subrange(k + 2, n as int));
        }
        k += 2;
    }
    proof {
        assert(chars@.subrange(0, n as int) =~= chars@);
        let here = chars@.subrange(k as int, n as int);
        if here.len() >= 2 {
            assert(here[0] == chars@[k as int] && here[1] == chars@[k + 1]);
        }
        assert(without_hex_marks(here) == here);
    }
    let start: usize = if k < n && chars[k] == '+' {
        k + 1
    } else {
        k
    };
    proof {
        let here = chars@.subrange(k as int, n as int);
        assert(unsigned_digits(here) =~= chars@.subrange(start as int, n as int));
    }
    match parse_unsigned(chars.as_slice(), start, 16, 255) {
        Some(value) => Some(value as u8),
        None => None,
    }
}

/// The signed byte that `text` spells in base 10, as `str::parse::<i8>`
/// reads it.
pub fn parse_decimal_i8(text: &str) -> (r: Option<i8>)
    ensures
        r == decimal_i8(text@),
{
    let chars = chars_of(text);
    let n: usize = chars.len();
    let negative: bool = n > 0 && chars[0] == '-';
    let start: usize = if n > 0 && (chars[0] == '+' || chars[0] == '-') {
        1
    } else {
        0
    };
    proof {
        assert(chars@.subrange(0, n as int) =~= chars@);
        assert(signed_digits(chars@) =~= chars@.subrange(start as int, n as int));
    }
    if negative {
        match parse_unsigned(chars.as_slice(), start, 10, 128) {
            Some(value) => Some((-(value as i16)) as i8),
            None => None,
        }
    } else {
        match parse_unsigned(chars.as_slice(), start, 10, 127) {
            Some(value) => Some(value as i8),
            None => None,
        }
    }
}

} // verus!
