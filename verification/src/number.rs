//! Decimal numbers in text: reading an `i32` the way `i32::from_str_radix(_, 10)`
//! reads it, and writing a `u32` in decimal.
use vstd::prelude::*;
use crate::text::chars_of;

verus! {

pub open spec fn is_digit(c: char) -> bool {
    '0' <= c && c <= '9'
}

pub open spec fn digit_value(c: char) -> int {
    (c as int) - ('0' as int)
}

pub open spec fn all_digits(s: Seq<char>) -> bool {
    forall|i: int| 0 <= i < s.len() ==> is_digit(#[trigger] s[i])
}

/// The number that the decimal digits `s` denote (0 for no digits).
pub open spec fn digits_value(s: Seq<char>) -> int
    decreases s.len(),
{
    if s.len() == 0 {
        0
    } else {
        digits_value(s.drop_last()) * 10 + digit_value(s.last())
    }
}

/// Whether `c` is a sign that may lead a number.
pub open spec fn is_sign(c: char) -> bool {
    c == '+' || c == '-'
}

/// The digits of a signed decimal number, after its optional sign.
pub open spec fn unsigned_part(s: Seq<char>) -> Seq<char> {
    if s.len() > 0 && is_sign(s[0]) {
        s.skip(1)
    } else {
        s
    }
}

/// The value of a decimal number: an optional `+` or `-`, then at least one
/// digit.
pub open spec fn signed_value(s: Seq<char>) -> int {
    if s.len() > 0 && s[0] == '-' {
        -digits_value(unsigned_part(s))
    } else {
        digits_value(unsigned_part(s))
    }
}

/// What `i32::from_str_radix(s, 10)` gives: `None` for empty text, a lone
/// sign, any character other than a digit after the optional sign, or a value
/// outside the range of `i32`.
pub open spec fn decimal_i32(s: Seq<char>) -> Option<i32> {
    if s.len() == 0 || (is_sign(s[0]) && s.len() == 1) {
        None
    } else if all_digits(unsigned_part(s)) && i32::MIN <= signed_value(s) <= i32::MAX {
        Some(signed_value(s) as i32)
    } else {
        None
    }
}

pub proof fn lemma_digits_value_nonneg(s: Seq<char>)
    requires
        all_digits(s),
    ensures
        digits_value(s) >= 0,
    decreases s.len(),
{
    if s.len() > 0 {
        assert(all_digits(s.drop_last())) by {
            assert forall|i: int| 0 <= i < s.drop_last().len() implies is_digit(
                #[trigger] s.drop_last()[i],
            ) by {
                assert(s.drop_last()[i] == s[i]);
            }
        }
        lemma_digits_value_nonneg(s.drop_last());
        assert(is_digit(s[s.len() - 1]));
    }
}

/// Appending digits never makes a number smaller.
pub proof fn lemma_digits_value_prefix(s: Seq<char>, k: int)
    requires
        all_digits(s),
        0 <= k <= s.len(),
    ensures
        digits_value(s.take(k)) <= digits_value(s),
    decreases s.len() - k,
{
    if k < s.len() {
        let t = s.take(k + 1);
        assert(all_digits(t)) by {
            assert forall|i: int| 0 <= i < t.len() implies is_digit(#[trigger] t[i]) by {
                assert(t[i] == s[i]);
            }
        }
        lemma_digits_value_prefix(s, k + 1);
        assert(t.drop_last() =~= s.take(k));
        lemma_digits_value_nonneg(s.take(k));
        assert(is_digit(t.last()));
    } else {
        assert(s.take(k) =~= s);
    }
}

/// The decimal number in `s`, read as `i32::from_str_radix(s, 10)` reads it.
pub fn parse_i32_text(s: &str) -> (res: Option<i32>)
    ensures
        res == decimal_i32(s@),
{
    let sc = chars_of(s);
    let n = sc.len();
    if n == 0 {
        return None;
    }
    let first = sc[0];
    let signed = first == '+' || first == '-';
    if signed && n == 1 {
        return None;
    }
    let negative = first == '-';
    let start: usize = if signed { 1 } else { 0 };
    let limit: u64 = if negative { 2147483648 } else { 2147483647 };
    let ghost digits = unsigned_part(s@);
    proof {
        assert(digits =~= s@.subrange(start as int, n as int));
    }
    let mut acc: u64 = 0;
    let mut i: usize = start;
    proof {
        assert(s@.subrange(start as int, start as int) =~= seq![]);
    }
    while i < n
        invariant
            sc@ == s@,
            n == sc.len(),
            n >= 1,
            !(is_sign(s@[0]) && n == 1),
            start == (if is_sign(s@[0]) { 1usize } else { 0usize }),
            limit == (if s@[0] == '-' { 2147483648u64 } else { 2147483647u64 }),
            digits == unsigned_part(s@),
            start <= i <= n,
            digits == s@.subrange(start as int, n as int),
            acc <= limit,
            limit <= 2147483648,
            acc == digits_value(s@.subrange(start as int, i as int)),
            all_digits(s@.subrange(start as int, i as int)),
        decreases n - i,
    {
        let c = sc[i];
        if !('0' <= c && c <= '9') {
            proof {
                assert(digits[i - start] == c);
                assert(!is_digit(digits[i - start]));
            }
            return None;
        }
        let d = (c as u32 - '0' as u32) as u64;
        let ghost prefix = s@.subrange(start as int, i + 1);
        proof {
            assert(prefix.drop_last() =~= s@.subrange(start as int, i as int));
            assert(prefix.last() == c);
            assert(all_digits(prefix)) by {
                assert forall|j: int| 0 <= j < prefix.len() implies is_digit(#[trigger] prefix[j]) by {
                    if j < prefix.len() - 1 {
                        assert(prefix[j] == s@.subrange(start as int, i as int)[j]);
                    }
                }
            }
        }
        acc = acc * 10 + d;
        if acc > limit {
            proof {
                if all_digits(digits) {
                    assert(prefix =~= digits.take(i + 1 - start));
                    lemma_digits_value_prefix(digits, i + 1 - start);
                }
            }
            return None;
        }
        i = i + 1;
    }
    proof {
        assert(s@.subrange(start as int, n as int) =~= digits);
    }
    if negative {
        let v: i64 = 0 - (acc as i64);
        Some(v as i32)
    } else {
        Some(acc as i32)
    }
}

/// The decimal digits of `n`, most significant first, without leading zeros.
pub open spec fn decimal_text(n: nat) -> Seq<char>
    decreases n,
{
    if n < 10 {
        seq![digit_char(n)]
    } else {
        decimal_text(n / 10) + seq![digit_char(n % 10)]
    }
}

pub open spec fn digit_char(d: nat) -> char {
    ((d + ('0' as int)) as u32) as char
}

fn digit_str(d: u32) -> (res: &'static str)
    requires
        d < 10,
    ensures
        res@ == seq![digit_char(d as nat)],
{
    proof {
        reveal_strlit("0");
        reveal_strlit("1");
        reveal_strlit("2");
        reveal_strlit("3");
        reveal_strlit("4");
        reveal_strlit("5");
        reveal_strlit("6");
        reveal_strlit("7");
        reveal_strlit("8");
        reveal_strlit("9");
    }
    match d {
        0 => "0",
        1 => "1",
        2 => "2",
        3 => "3",
        4 => "4",
        5 => "5",
        6 => "6",
        7 => "7",
        8 => "8",
        _ => "9",
    }
}

/// `n` written in decimal, as `n.to_string()` writes it.
pub fn format_u32(n: u32) -> (res: String)
    ensures
        res@ == decimal_text(n as nat),
    decreases n,
{
    if n < 10 {
        String::from_str(digit_str(n))
    } else {
        let mut head = format_u32(n / 10);
        head.append(digit_str(n % 10));
        head
    }
}


/// A number holds no character but its leading sign and digits.
pub proof fn lemma_decimal_rejects_char(s: Seq<char>, c: char)
    requires
        s.contains(c),
        !is_digit(c),
        !is_sign(c),
    ensures
        decimal_i32(s) is None,
{
    let k = choose|k: int| 0 <= k < s.len() && s[k] == c;
    if s.len() > 0 && !(is_sign(s[0]) && s.len() == 1) {
        let u = unsigned_part(s);
        if is_sign(s[0]) {
            assert(k >= 1);
            assert(u[k - 1] == c);
            assert(!is_digit(u[k - 1]));
        } else {
            assert(u[k] == c);
            assert(!is_digit(u[k]));
        }
    }
}

} // verus!
