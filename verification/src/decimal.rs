//! Decimal text of 32-bit integers: user identifiers travel in tokens as text.

use vstd::prelude::*;
use vstd::string::is_ascii_spec_bytes;

verus! {

/// `String::push` appends one character and leaves the rest of the string as it was.
pub assume_specification[ String::push ](s: &mut String, c: char)
    ensures
        final(s)@ == old(s)@.push(c),
;

pub open spec fn is_digit(c: char) -> bool {
    '0' <= c <= '9'
}

/// The character that stands for the digit `d`, for `0 <= d <= 9`.
pub open spec fn digit_char(d: int) -> char {
    (d + 48) as u8 as char
}

/// The digit that `c` stands for; 0 where `c` is no digit.
pub open spec fn digit_value(c: char) -> nat {
    if is_digit(c) {
        (c as int - 48) as nat
    } else {
        0
    }
}

/// The digits of `n`, most significant first, without leading zeros.
pub open spec fn digits_of(n: nat) -> Seq<char>
    decreases n,
{
    if n < 10 {
        seq![digit_char(n as int)]
    } else {
        digits_of(n / 10).push(digit_char((n % 10) as int))
    }
}

/// Decimal text of `v`: a minus sign for a negative number, then its digits.
pub open spec fn decimal_of(v: int) -> Seq<char> {
    if v < 0 {
        seq!['-'] + digits_of((-v) as nat)
    } else {
        digits_of(v as nat)
    }
}

pub open spec fn all_digits(s: Seq<char>) -> bool {
    forall|i: int| 0 <= i < s.len() ==> is_digit(#[trigger] s[i])
}

/// The number that a run of digits denotes, most significant first.
pub open spec fn digits_value(s: Seq<char>) -> nat
    decreases s.len(),
{
    if s.len() == 0 {
        0
    } else {
        digits_value(s.drop_last()) * 10 + digit_value(s.last())
    }
}

/// Length of the sign in front of `s`: 1 for a leading `-` or `+`, else 0.
pub open spec fn sign_len(s: Seq<char>) -> int {
    if s.len() > 0 && (s[0] == '-' || s[0] == '+') {
        1
    } else {
        0
    }
}

/// What `s` denotes as a 32-bit integer: an optional sign, then at least one
/// digit and nothing else, with a value in range. `None` for any other text.
pub open spec fn parsed_i32(s: Seq<char>) -> Option<i32> {
    let body = s.subrange(sign_len(s), s.len() as int);
    let magnitude = digits_value(body) as int;
    let value = if s.len() > 0 && s[0] == '-' {
        -magnitude
    } else {
        magnitude
    };
    if body.len() > 0 && all_digits(body) && i32::MIN <= value <= i32::MAX {
        Some(value as i32)
    } else {
        None
    }
}

/// A run of digits denotes at least what any of its prefixes denotes.
pub proof fn lemma_prefix_value(s: Seq<char>, k: int)
    requires
        0 <= k <= s.len(),
    ensures
        digits_value(s.subrange(0, k)) <= digits_value(s),
    decreases s.len(),
{
    if k == s.len() {
        assert(s.subrange(0, k) =~= s);
    } else {
        assert(s.drop_last().subrange(0, k) =~= s.subrange(0, k));
        lemma_prefix_value(s.drop_last(), k);
    }
}

/// The digits of a number are digits, start with one, and denote that number.
pub proof fn lemma_digits_of(n: nat)
    ensures
        digits_of(n).len() > 0,
        all_digits(digits_of(n)),
        digits_value(digits_of(n)) == n,
    decreases n,
{
    if n < 10 {
        let s = digits_of(n);
        assert(s.drop_last() =~= Seq::<char>::empty());
        assert(digits_value(s.drop_last()) == 0);
        assert(s.last() == digit_char(n as int));
    } else {
        lemma_digits_of(n / 10);
        let s = digits_of(n);
        assert(s.drop_last() =~= digits_of(n / 10));
        assert(s.last() == digit_char((n % 10) as int));
    }
}

/// Reading the decimal text of a 32-bit integer gives the integer back.
pub proof fn lemma_decimal_round_trip(v: i32)
    ensures
        parsed_i32(decimal_of(v as int)) == Some(v),
{
    let s = decimal_of(v as int);
    if v < 0 {
        let m = (-(v as int)) as nat;
        lemma_digits_of(m);
        assert(s.subrange(1, s.len() as int) =~= digits_of(m));
    } else {
        let m = v as nat;
        lemma_digits_of(m);
        assert(is_digit(s[0]));
        assert(s.subrange(0, s.len() as int) =~= s);
    }
}

fn digit_of(d: u32) -> (c: char)
    requires
        d < 10,
    ensures
        c == digit_char(d as int),
{
    (d as u8 + 48u8) as char
}

fn push_digits(n: u32, out: &mut String)
    ensures
        final(out)@ == old(out)@ + digits_of(n as nat),
    decreases n,
{
    if n >= 10 {
        push_digits(n / 10, out);
    }
    out.push(digit_of(n % 10));
    assert(final(out)@ =~= old(out)@ + digits_of(n as nat));
}

/// Writes `v` in decimal.
pub fn i32_to_decimal(v: i32) -> (s: String)
    ensures
        s@ == decimal_of(v as int),
{
    let mut out = String::new();
    if v < 0 {
        out.push('-');
        let m: u32 = if v == i32::MIN {
            2147483648u32
        } else {
            (-v) as u32
        };
        push_digits(m, &mut out);
        assert(out@ =~= decimal_of(v as int));
    } else {
        push_digits(v as u32, &mut out);
        assert(out@ =~= decimal_of(v as int));
    }
    out
}

/// Reads a 32-bit integer from decimal text, or `None` where the text is not one.
pub fn parse_i32(s: &str) -> (r: Option<i32>)
    ensures
        r == parsed_i32(s@),
{
    let ghost body = s@.subrange(sign_len(s@), s@.len() as int);
    if !s.is_ascii() {
        proof {
            let i = choose|i: int| 0 <= i < s@.len() && !('\0' <= #[trigger] s@[i] <= '\u{7f}');
            assert(i >= sign_len(s@));
            assert(!is_digit(body[i - sign_len(s@)]));
        }
        return None;
    }
    let n: usize = s.as_bytes().len();
    proof {
        is_ascii_spec_bytes(s);
    }
    assert(n == s@.len());
    if n == 0 {
        return None;
    }
    let first: u8 = s.get_ascii(0);
    let negative = first == 45u8;
    let start: usize = if first == 45u8 || first == 43u8 {
        1
    } else {
        0
    };
    assert(start == sign_len(s@));
    if start == n {
        return None;
    }
    let mut acc: i64 = 0;
    let mut i: usize = start;
    assert(body.subrange(0, 0) =~= Seq::<char>::empty());
    while i < n
        invariant
            s.is_ascii(),
            n == s@.len(),
            start == sign_len(s@),
            body == s@.subrange(sign_len(s@), s@.len() as int),
            start <= i <= n,
            all_digits(body.subrange(0, i - start)),
            acc == digits_value(body.subrange(0, i - start)),
            0 <= acc <= 2147483648,
        decreases n - i,
    {
        let b: u8 = s.get_ascii(i);
        let ghost k = i - start;
        assert(body[k] == s@[i as int]);
        if b < 48u8 || b > 57u8 {
            assert(!is_digit(body[k]));
            return None;
        }
        assert(is_digit(body[k]));
        proof {
            let next = body.subrange(0, k + 1);
            assert(next.drop_last() =~= body.subrange(0, k));
            assert(next.last() == body[k]);
            lemma_prefix_value(body, k + 1);
        }
        acc = acc * 10 + (b - 48u8) as i64;
        if acc > 2147483648 {
            return None;
        }
        i = i + 1;
    }
    assert(body.subrange(0, i - start) =~= body);
    if negative {
        Some((-acc) as i32)
    } else if acc > 2147483647 {
        None
    } else {
        Some(acc as i32)
    }
}

} // verus!
