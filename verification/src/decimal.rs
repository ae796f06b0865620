//! Decimal text of integers: how a number is written into a numeric attribute
//! and how it is read back.
use vstd::prelude::*;
use vstd::string::*;

verus! {

/// The character that stands for the digit `d`, for `0 <= d <= 9`.
pub open spec fn digit_char(d: int) -> char {
    (d + 48) as char
}

/// Whether `c` is one of the ten ASCII digits.
pub open spec fn is_digit(c: char) -> bool {
    '0' <= c <= '9'
}

/// The digits of `n`, most significant first, with no leading zero (but `0` is "0").
pub open spec fn digits(n: nat) -> Seq<char>
    decreases n,
{
    if n < 10 {
        seq![digit_char(n as int)]
    } else {
        digits(n / 10).push(digit_char((n % 10) as int))
    }
}

/// The decimal text of `n`: a minus sign for a negative number, then its digits.
pub open spec fn decimal_text(n: int) -> Seq<char> {
    if n < 0 {
        seq!['-'] + digits((-n) as nat)
    } else {
        digits(n as nat)
    }
}

/// Whether every character of `s` is a digit.
pub open spec fn all_digits(s: Seq<char>) -> bool {
    forall|i: int| 0 <= i < s.len() ==> is_digit(#[trigger] s[i])
}

/// The number that a run of digits stands for; leading zeros count for nothing.
pub open spec fn digits_value(s: Seq<char>) -> nat
    decreases s.len(),
{
    if s.len() == 0 {
        0
    } else {
        (digits_value(s.drop_last()) * 10 + (s.last() as int - 48)) as nat
    }
}

/// Whether `s` starts with a plus or a minus sign.
pub open spec fn has_sign(s: Seq<char>) -> bool {
    s.len() > 0 && (s[0] == '-' || s[0] == '+')
}

/// What is left of `s` once a leading sign is taken off.
pub open spec fn unsigned_part(s: Seq<char>) -> Seq<char> {
    if has_sign(s) {
        s.subrange(1, s.len() as int)
    } else {
        s
    }
}

/// The integer that `s` stands for: an optional sign followed by one or more
/// digits and nothing else. Any other text stands for no integer.
pub open spec fn parse_decimal(s: Seq<char>) -> Option<int> {
    let body = unsigned_part(s);
    if body.len() == 0 || !all_digits(body) {
        None
    } else if s[0] == '-' {
        Some(-(digits_value(body) as int))
    } else {
        Some(digits_value(body) as int)
    }
}

/// The `i32` that `s` stands for, if it stands for an integer within the type's range.
pub open spec fn parse_i32(s: Seq<char>) -> Option<i32> {
    match parse_decimal(s) {
        Some(v) => if i32::MIN <= v <= i32::MAX {
            Some(v as i32)
        } else {
            None
        },
        None => None,
    }
}

/// The digits of a number are digits, at least one of them, and stand for that number.
pub proof fn lemma_digits_value(n: nat)
    ensures
        digits(n).len() > 0,
        all_digits(digits(n)),
        digits_value(digits(n)) == n,
    decreases n,
{
    if n < 10 {
        let s = digits(n);
        assert(s.drop_last() =~= Seq::<char>::empty());
        assert(digits_value(s.drop_last()) == 0);
    } else {
        lemma_digits_value(n / 10);
        let s = digits(n);
        assert(s.drop_last() =~= digits(n / 10));
        assert(s.last() == digit_char((n % 10) as int));
    }
}

/// Reading the decimal text of an integer gives that integer back.
pub proof fn lemma_parse_decimal_text(n: int)
    ensures
        parse_decimal(decimal_text(n)) == Some(n),
{
    if n < 0 {
        let m = (-n) as nat;
        lemma_digits_value(m);
        let s = decimal_text(n);
        assert(s[0] == '-');
        assert(unsigned_part(s) =~= digits(m));
    } else {
        lemma_digits_value(n as nat);
        let s = decimal_text(n);
        assert(is_digit(s[0]));
        assert(unsigned_part(s) == s);
    }
}

/// Reading the decimal text of an `i32` gives that `i32` back.
pub proof fn lemma_parse_i32_text(n: i32)
    ensures
        parse_i32(decimal_text(n as int)) == Some(n),
{
    lemma_parse_decimal_text(n as int);
}

/// A longer run of digits stands for no smaller a number than its beginning does.
proof fn lemma_prefix_value(s: Seq<char>, k: int)
    requires
        all_digits(s),
        0 <= k <= s.len(),
    ensures
        digits_value(s.subrange(0, k)) <= digits_value(s),
    decreases s.len() - k,
{
    if k == s.len() {
        assert(s.subrange(0, k) =~= s);
    } else {
        lemma_prefix_value(s, k + 1);
        let longer = s.subrange(0, k + 1);
        assert(longer.drop_last() =~= s.subrange(0, k));
        assert(is_digit(s[k]));
        assert(longer.last() == s[k]);
    }
}

fn digit_text(d: u32) -> (text: &'static str)
    requires
        d < 10,
    ensures
        text@ == seq![digit_char(d as int)],
{
    proof {
        reveal_strlit("0");
        reveal_strlit("1");
        reveal_strlit("2");
        reveal_strlit("3");
        reveal_strlit("4");
        reveal_strlit("5");
        reveal_strlit("6");
        reveal_strlit("7");
        reveal_strlit("8");
        reveal_strlit("9");
    }
    let text: &'static str = match d {
        0 => "0",
        1 => "1",
        2 => "2",
        3 => "3",
        4 => "4",
        5 => "5",
        6 => "6",
        7 => "7",
        8 => "8",
        _ => "9",
    };
    assert(text@ =~= seq![digit_char(d as int)]);
    text
}

fn append_digits(text: &mut String, n: u32)
    ensures
        final(text)@ == old(text)@ + digits(n as nat),
    decreases n,
{
    if n >= 10 {
        append_digits(text, n / 10);
    }
    text.append(digit_text(n % 10));
    proof {
        if n >= 10 {
            assert(old(text)@ + digits((n / 10) as nat) + seq![digit_char((n % 10) as int)]
                =~= old(text)@ + digits(n as nat));
        }
    }
}

/// Writes `n` in decimal.
pub fn i32_to_string(n: i32) -> (text: String)
    ensures
        text@ == decimal_text(n as int),
{
    let mut text = String::new();
    if n < 0 {
        proof {
            reveal_strlit("-");
        }
        text.append("-");
        let wide: i64 = n as i64;
        let magnitude: u32 = (-wide) as u32;
        append_digits(&mut text, magnitude);
        assert(text@ =~= decimal_text(n as int));
    } else {
        append_digits(&mut text, n as u32);
        assert(text@ =~= decimal_text(n as int));
    }
    text
}

/// Reads a decimal `i32`: an optional `+` or `-`, then digits only. Text that is
/// empty, holds anything else, or stands for a number outside the range of
/// `i32` gives `None`.
pub fn string_to_i32(s: &str) -> (value: Option<i32>)
    ensures
        value == parse_i32(s@),
{
    if !s.is_ascii() {
        proof {
            let i = choose|i: int| 0 <= i < s@.len() && !('\0' <= #[trigger] s@[i] <= '\u{7f}');
            let body = unsigned_part(s@);
            if has_sign(s@) {
                assert(i >= 1);
                assert(body[i - 1] == s@[i]);
                assert(!is_digit(body[i - 1]));
            } else {
                assert(!is_digit(body[i]));
            }
        }
        return None;
    }
    let len: usize = s.as_bytes().len();
    proof {
        is_ascii_spec_bytes(s);
        assert(len == s@.len());
    }
    if len == 0 {
        return None;
    }
    let first: u8 = s.get_ascii(0);
    let negative: bool = first == 45;
    let start: usize = if first == 45 || first == 43 {
        1
    } else {
        0
    };
    let ghost body = unsigned_part(s@);
    proof {
        assert('\0' <= s@[0] <= '\u{7f}');
        assert(first == 45 <==> s@[0] == '-');
        assert(first == 43 <==> s@[0] == '+');
        assert(body =~= s@.subrange(start as int, len as int));
    }
    if start == len {
        return None;
    }
    let mut total: i64 = 0;
    let mut i: usize = start;
    while i < len
        invariant
            s.is_ascii(),
            len == s@.len(),
            start <= i <= len,
            body == s@.subrange(start as int, len as int),
            body == unsigned_part(s@),
            negative == (s@[0] == '-'),
            all_digits(body.subrange(0, i - start)),
            total == digits_value(body.subrange(0, i - start)),
            0 <= total <= 2147483648,
        decreases len - i,
    {
        let b: u8 = s.get_ascii(i);
        let ghost seen = body.subrange(0, i - start);
        let ghost more = body.subrange(0, i - start + 1);
        proof {
            assert(body[i - start] == s@[i as int]);
            assert(more.drop_last() =~= seen);
            assert(more.last() == s@[i as int]);
        }
        if b < 48 || b > 57 {
            assert(!is_digit(body[i - start]));
            return None;
        }
        total = total * 10 + (b - 48) as i64;
        proof {
            assert(is_digit(s@[i as int]));
            assert forall|j: int| 0 <= j < more.len() implies is_digit(#[trigger] more[j]) by {
                if j < seen.len() {
                    assert(more[j] == seen[j]);
                }
            }
            assert(total == digits_value(more));
        }
        if total > 2147483648 {
            proof {
                if all_digits(body) {
                    lemma_prefix_value(body, i - start + 1);
                }
            }
            return None;
        }
        i = i + 1;
    }
    assert(body.subrange(0, i - start) =~= body);
    if negative {
        Some((-total) as i32)
    } else if total > 2147483647 {
        None
    } else {
        Some(total as i32)
    }
}

} // verus!
