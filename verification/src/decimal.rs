//! Decimal integers written as text.
//!
//! The accepted form is that of the integer types' own `FromStr`: an optional
//! sign, then at least one ASCII digit, and nothing else. A minus sign is only
//! accepted where the target type is signed.

use vstd::prelude::*;
use vstd::string::*;
use vstd::utf8::is_ascii_chars;

verus! {

pub open spec fn is_digit(c: char) -> bool {
    '0' <= c && c <= '9'
}

pub open spec fn digit_value(c: char) -> int {
    c as u32 as int - 48
}

/// The number that a run of digits denotes, most significant digit first.
pub open spec fn digits_value(s: Seq<char>) -> int
    decreases s.len(),
{
    if s.len() == 0 {
        0
    } else {
        10 * digits_value(s.drop_last()) + digit_value(s.last())
    }
}

pub open spec fn all_digits(s: Seq<char>) -> bool {
    forall|i: int| 0 <= i < s.len() ==> is_digit(#[trigger] s[i])
}

/// The value of a non-empty run of digits; `None` for anything else.
pub open spec fn unsigned_decimal(s: Seq<char>) -> Option<int> {
    if s.len() > 0 && all_digits(s) {
        Some(digits_value(s))
    } else {
        None
    }
}

/// The value of digits with an optional `+` in front.
pub open spec fn plus_decimal(s: Seq<char>) -> Option<int> {
    if s.len() > 0 && s[0] == '+' {
        unsigned_decimal(s.skip(1))
    } else {
        unsigned_decimal(s)
    }
}

/// The value of digits with an optional `+` or `-` in front.
pub open spec fn signed_decimal(s: Seq<char>) -> Option<int> {
    if s.len() > 0 && s[0] == '-' {
        match unsigned_decimal(s.skip(1)) {
            Some(v) => Some(-v),
            None => None,
        }
    } else {
        plus_decimal(s)
    }
}

/// `value`, if it lies between `lo` and `hi`.
pub open spec fn within(value: Option<int>, lo: int, hi: int) -> Option<int> {
    match value {
        Some(v) => if lo <= v && v <= hi {
            Some(v)
        } else {
            None
        },
        None => None,
    }
}

pub open spec fn i64_of(s: Seq<char>) -> Option<i64> {
    match within(signed_decimal(s), i64::MIN as int, i64::MAX as int) {
        Some(v) => Some(v as i64),
        None => None,
    }
}

pub open spec fn i32_of(s: Seq<char>) -> Option<i32> {
    match within(signed_decimal(s), i32::MIN as int, i32::MAX as int) {
        Some(v) => Some(v as i32),
        None => None,
    }
}

pub open spec fn u64_of(s: Seq<char>) -> Option<u64> {
    match within(plus_decimal(s), 0, u64::MAX as int) {
        Some(v) => Some(v as u64),
        None => None,
    }
}

pub proof fn lemma_digits_value_nonnegative(s: Seq<char>)
    requires
        all_digits(s),
    ensures
        digits_value(s) >= 0,
    decreases s.len(),
{
    if s.len() > 0 {
        assert(is_digit(s[s.len() - 1]));
        lemma_digits_value_nonnegative(s.drop_last());
    }
}

/// A run of digits denotes at least what any of its prefixes denotes.
pub proof fn lemma_digits_value_prefix(s: Seq<char>, k: int)
    requires
        all_digits(s),
        0 <= k <= s.len(),
    ensures
        digits_value(s.take(k)) <= digits_value(s),
    decreases s.len() - k,
{
    if k == s.len() {
        assert(s.take(k) =~= s);
    } else {
        assert(is_digit(s[s.len() - 1]));
        let shorter = s.drop_last();
        assert(shorter.take(k) =~= s.take(k));
        lemma_digits_value_prefix(shorter, k);
        lemma_digits_value_nonnegative(shorter);
    }
}

/// Text with a character outside ASCII denotes no number.
proof fn lemma_non_ascii_is_no_number(s: Seq<char>)
    requires
        !is_ascii_chars(s),
    ensures
        signed_decimal(s) is None,
        plus_decimal(s) is None,
{
    let i = choose|i: int| 0 <= i < s.len() && !('\0' <= #[trigger] s[i] && s[i] <= '\u{7f}');
    assert(!is_digit(s[i]));
    if i > 0 {
        assert(s.skip(1)[i - 1] == s[i]);
    }
}

/// Reads the digits of `s` from position `start` to its end. Returns their
/// value when there is at least one, all of them are digits, and the value is
/// at most `limit`.
fn read_digits(s: &str, start: usize, limit: u64) -> (r: Option<u64>)
    requires
        s.is_ascii(),
        start <= s@.len(),
    ensures
        match r {
            Some(v) => within(unsigned_decimal(s@.skip(start as int)), 0, limit as int) == Some(
                v as int,
            ),
            None => within(unsigned_decimal(s@.skip(start as int)), 0, limit as int) is None,
        },
{
    let n = s.as_bytes().len();
    let ghost digits = s@.skip(start as int);
    proof {
        is_ascii_spec_bytes(s);
    }
    assert(n == s@.len());
    if start == n {
        return None;
    }
    let mut acc: u64 = 0;
    let mut i: usize = start;
    while i < n
        invariant
            s.is_ascii(),
            n == s@.len(),
            start <= i <= n,
            digits == s@.skip(start as int),
            all_digits(digits.take(i - start)),
            acc == digits_value(digits.take(i - start)),
            acc <= limit,
        decreases n - i,
    {
        let b: u8 = s.get_ascii(i);
        let ghost c = s@[i as int];
        assert('\0' <= c && c <= '\u{7f}');
        assert(digits[i - start] == c);
        if b < 48 || b > 57 {
            assert(!is_digit(digits[i - start]));
            return None;
        }
        assert(is_digit(c));
        let next: u128 = acc as u128 * 10 + (b - 48) as u128;
        let ghost longer = digits.take(i - start + 1);
        assert(longer.drop_last() =~= digits.take(i - start));
        assert(longer.last() == c);
        assert(next == digits_value(longer));
        assert(all_digits(longer)) by {
            assert forall|j: int| 0 <= j < longer.len() implies is_digit(#[trigger] longer[j]) by {
                if j < i - start {
                    assert(digits.take(i - start)[j] == longer[j]);
                }
            }
        }
        if next > limit as u128 {
            proof {
                if all_digits(digits) {
                    assert(digits.take(i - start + 1) == longer);
                    lemma_digits_value_prefix(digits, i - start + 1);
                }
            }
            return None;
        }
        acc = next as u64;
        i = i + 1;
    }
    assert(digits.take(i - start) =~= digits);
    Some(acc)
}

/// Reads a signed decimal integer between `lo` and `hi`.
fn parse_signed(s: &str, lo: i64, hi: i64) -> (r: Option<i64>)
    requires
        lo <= 0 <= hi,
    ensures
        match r {
            Some(v) => within(signed_decimal(s@), lo as int, hi as int) == Some(v as int),
            None => within(signed_decimal(s@), lo as int, hi as int) is None,
        },
{
    if !s.is_ascii() {
        proof {
            lemma_non_ascii_is_no_number(s@);
        }
        return None;
    }
    let n = s.as_bytes().len();
    proof {
        is_ascii_spec_bytes(s);
    }
    assert(n == s@.len());
    if n == 0 {
        return None;
    }
    let first: u8 = s.get_ascii(0);
    let ghost c = s@[0];
    assert('\0' <= c && c <= '\u{7f}');
    if first == 45 {
        assert(c == '-');
        let magnitude_limit: u64 = if lo == i64::MIN {
            9223372036854775808u64
        } else {
            (-lo) as u64
        };
        match read_digits(s, 1, magnitude_limit) {
            Some(m) => {
                proof {
                    lemma_digits_value_nonnegative(s@.skip(1));
                }
                if m == 9223372036854775808u64 {
                    Some(i64::MIN)
                } else {
                    Some(-(m as i64))
                }
            },
            None => {
                proof {
                    if all_digits(s@.skip(1)) {
                        lemma_digits_value_nonnegative(s@.skip(1));
                    }
                }
                None
            },
        }
    } else {
        let start: usize = if first == 43 {
            1
        } else {
            0
        };
        assert(first == 43 <==> c == '+');
        assert(s@.skip(0) =~= s@);
        match read_digits(s, start, hi as u64) {
            Some(m) => {
                proof {
                    lemma_digits_value_nonnegative(s@.skip(start as int));
                }
                Some(m as i64)
            },
            None => {
                proof {
                    if all_digits(s@.skip(start as int)) {
                        lemma_digits_value_nonnegative(s@.skip(start as int));
                    }
                }
                None
            },
        }
    }
}

/// Reads a 64-bit signed integer.
pub fn parse_i64(s: &str) -> (r: Option<i64>)
    ensures
        r == i64_of(s@),
{
    parse_signed(s, i64::MIN, i64::MAX)
}

/// Reads a 32-bit signed integer.
pub fn parse_i32(s: &str) -> (r: Option<i32>)
    ensures
        r == i32_of(s@),
{
    match parse_signed(s, -2147483648, 2147483647) {
        Some(v) => Some(v as i32),
        None => None,
    }
}

/// Reads a 64-bit unsigned integer.
pub fn parse_u64(s: &str) -> (r: Option<u64>)
    ensures
        r == u64_of(s@),
{
    if !s.is_ascii() {
        proof {
            lemma_non_ascii_is_no_number(s@);
        }
        return None;
    }
    let n = s.as_bytes().len();
    proof {
        is_ascii_spec_bytes(s);
    }
    assert(n == s@.len());
    if n == 0 {
        return None;
    }
    let first: u8 = s.get_ascii(0);
    let ghost c = s@[0];
    assert('\0' <= c && c <= '\u{7f}');
    let start: usize = if first == 43 {
        1
    } else {
        0
    };
    assert(first == 43 <==> c == '+');
    assert(s@.skip(0) =~= s@);
    let r = read_digits(s, start, u64::MAX);
    proof {
        if all_digits(s@.skip(start as int)) {
            lemma_digits_value_nonnegative(s@.skip(start as int));
        }
    }
    r
}

/// The digit for a number below 10.
pub open spec fn digit_char(d: int) -> char {
    "0123456789"@[d]
}

/// The digits of a number, most significant first, without leading zeros.
pub open spec fn digits_of(n: nat) -> Seq<char>
    decreases n,
{
    if n < 10 {
        seq![digit_char(n as int)]
    } else {
        digits_of(n / 10).push(digit_char((n % 10) as int))
    }
}

/// A number in decimal: its digits, after a minus sign where it is negative.
pub open spec fn decimal_text(n: int) -> Seq<char> {
    if n < 0 {
        seq!['-'] + digits_of((-n) as nat)
    } else {
        digits_of(n as nat)
    }
}

/// The digits of a number are digits, and denote the number.
pub proof fn lemma_digits_of_denote(n: nat)
    ensures
        digits_of(n).len() > 0,
        all_digits(digits_of(n)),
        digits_value(digits_of(n)) == n,
    decreases n,
{
    reveal_strlit("0123456789");
    if n < 10 {
        let s = digits_of(n);
        assert(s.len() == 1);
        assert(s[0] == digit_char(n as int));
        assert(s.drop_last() =~= Seq::<char>::empty());
        assert(digits_value(s.drop_last()) == 0);
        assert(digit_value(s.last()) == n);
    } else {
        lemma_digits_of_denote(n / 10);
        let front = digits_of(n / 10);
        let s = digits_of(n);
        let d = digit_char((n % 10) as int);
        assert(s == front.push(d));
        assert(s.drop_last() =~= front);
        assert(is_digit(d) && digit_value(d) == n % 10);
        assert forall|i: int| 0 <= i < s.len() implies is_digit(#[trigger] s[i]) by {
            if i < front.len() {
                assert(s[i] == front[i]);
            }
        }
    }
}

/// A number written in decimal is read back as itself.
pub proof fn lemma_decimal_round_trip(n: int)
    ensures
        signed_decimal(decimal_text(n)) == Some(n),
        n >= 0 ==> plus_decimal(decimal_text(n)) == Some(n),
{
    reveal_strlit("0123456789");
    if n < 0 {
        let digits = digits_of((-n) as nat);
        lemma_digits_of_denote((-n) as nat);
        assert(decimal_text(n).skip(1) =~= digits);
        assert(decimal_text(n)[0] == '-');
    } else {
        lemma_digits_of_denote(n as nat);
        let s = digits_of(n as nat);
        assert(is_digit(s[0]));
    }
}

/// The text of one digit.
fn digit_text(d: u64) -> (r: &'static str)
    requires
        d < 10,
    ensures
        r@ == seq![digit_char(d as int)],
{
    proof {
        reveal_strlit("0123456789");
        reveal_strlit("0");
        reveal_strlit("1");
        reveal_strlit("2");
        reveal_strlit("3");
        reveal_strlit("4");
        reveal_strlit("5");
        reveal_strlit("6");
        reveal_strlit("7");
        reveal_strlit("8");
        reveal_strlit("9");
    }
    let r = if d == 0 {
        "0"
    } else if d == 1 {
        "1"
    } else if d == 2 {
        "2"
    } else if d == 3 {
        "3"
    } else if d == 4 {
        "4"
    } else if d == 5 {
        "5"
    } else if d == 6 {
        "6"
    } else if d == 7 {
        "7"
    } else if d == 8 {
        "8"
    } else {
        "9"
    };
    assert(r@ =~= seq![digit_char(d as int)]);
    r
}

/// Appends the digits of `n` to `out`.
fn push_digits(n: u64, out: &mut String)
    ensures
        final(out)@ == old(out)@ + digits_of(n as nat),
    decreases n,
{
    if n >= 10 {
        push_digits(n / 10, out);
    }
    out.append(digit_text(n % 10));
    assert(out@ =~= old(out)@ + digits_of(n as nat));
}

/// Writes an unsigned number in decimal.
pub fn render_u64(n: u64) -> (r: String)
    ensures
        r@ == decimal_text(n as int),
{
    let mut out = String::new();
    push_digits(n, &mut out);
    assert(out@ =~= digits_of(n as nat));
    out
}

/// Writes a signed number in decimal.
pub fn render_i64(n: i64) -> (r: String)
    ensures
        r@ == decimal_text(n as int),
{
    if n < 0 {
        let magnitude: u64 = if n == i64::MIN {
            9223372036854775808u64
        } else {
            (-n) as u64
        };
        proof {
            reveal_strlit("-");
        }
        let mut out = "-".to_owned();
        push_digits(magnitude, &mut out);
        assert(out@ =~= seq!['-'] + digits_of((-n) as nat));
        out
    } else {
        render_u64(n as u64)
    }
}

} // verus!
