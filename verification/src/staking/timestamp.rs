//! Unix timestamps stored as decimal text in asset attributes.
use vstd::prelude::*;

verus! {

/// The character of the decimal digit `d` (`0 <= d < 10`).
pub open spec fn digit_char(d: nat) -> char {
    (48 + d) as char
}

/// Whether `c` is one of the ASCII digits `0` to `9`.
pub open spec fn is_digit(c: char) -> bool {
    48 <= c as int <= 57
}

/// The decimal digits of `n`, most significant first, with no leading zero.
pub open spec fn nat_decimal(n: nat) -> Seq<char>
    decreases n,
{
    if n < 10 {
        seq![digit_char(n)]
    } else {
        nat_decimal(n / 10).push(digit_char(n % 10))
    }
}

/// The decimal text of `t`: a `-` in front of a negative value, then its digits.
pub open spec fn i64_decimal(t: i64) -> Seq<char> {
    if t < 0 {
        seq!['-'] + nat_decimal((-t) as nat)
    } else {
        nat_decimal(t as nat)
    }
}

/// The value of a sequence of decimal digits, most significant first.
pub open spec fn digits_value(s: Seq<char>) -> int
    decreases s.len(),
{
    if s.len() == 0 {
        0
    } else {
        digits_value(s.drop_last()) * 10 + (s.last() as int - 48)
    }
}

/// Whether `s` is one or more decimal digits.
pub open spec fn all_digits(s: Seq<char>) -> bool {
    s.len() > 0 && forall|i: int| 0 <= i < s.len() ==> is_digit(#[trigger] s[i])
}

/// What reading `s` as a decimal `i64` gives: an optional `+` or `-` sign
/// followed by one or more digits and nothing else, whose value fits in an
/// `i64`; `None` for any other text.
pub open spec fn parse_i64(s: Seq<char>) -> Option<i64> {
    let signed = s.len() > 0 && (s[0] == '-' || s[0] == '+');
    let body = if signed { s.drop_first() } else { s };
    let v = if s.len() > 0 && s[0] == '-' { -digits_value(body) } else { digits_value(body) };
    if all_digits(body) && i64::MIN <= v <= i64::MAX {
        Some(v as i64)
    } else {
        None
    }
}

/// Formats `t` in decimal (`i64::to_string`).
///
/// Trusted: states that std's `Display` for `i64` writes the decimal digits
/// of the value with no leading zero, preceded by `-` when it is negative.
#[verifier::external_body]
pub(crate) fn format_timestamp(t: i64) -> (s: String)
    ensures
        s@ == i64_decimal(t),
{
    t.to_string()
}

/// Reads a decimal `i64` (`str::parse::<i64>`), `None` where std refuses the text.
///
/// Trusted: states what std documents for `i64::from_str`: an optional `+`
/// or `-` sign followed by only digits, refused on any other character, on
/// empty text and where the value does not fit.
#[verifier::external_body]
pub(crate) fn parse_timestamp(s: &String) -> (r: Option<i64>)
    ensures
        r == parse_i64(s@),
{
    s.parse::<i64>().ok()
}

proof fn lemma_nat_decimal(n: nat)
    ensures
        all_digits(nat_decimal(n)),
        digits_value(nat_decimal(n)) == n,
    decreases n,
{
    if n < 10 {
        let s = nat_decimal(n);
        assert(s.drop_last() =~= Seq::<char>::empty());
        assert(digit_char(n) as int == 48 + n);
        assert(digits_value(s) == digits_value(s.drop_last()) * 10 + (s.last() as int - 48));
    } else {
        lemma_nat_decimal(n / 10);
        let p = nat_decimal(n / 10);
        let s = nat_decimal(n);
        assert(s.drop_last() =~= p);
        assert(s.last() == digit_char(n % 10));
        assert(digit_char(n % 10) as int == 48 + n % 10);
        assert forall|i: int| 0 <= i < s.len() implies is_digit(#[trigger] s[i]) by {
            if i < p.len() {
                assert(s[i] == p[i]);
            }
        }
        assert((n / 10) * 10 + n % 10 == n) by (nonlinear_arith);
        assert(digits_value(s) == digits_value(p) * 10 + (n % 10));
    }
}

/// Reading back the decimal text of a timestamp gives the timestamp.
pub proof fn lemma_parse_formatted(t: i64)
    ensures
        parse_i64(i64_decimal(t)) == Some(t),
{
    if t < 0 {
        let m = (-t) as nat;
        lemma_nat_decimal(m);
        let s = i64_decimal(t);
        assert(s.drop_first() =~= nat_decimal(m));
    } else {
        lemma_nat_decimal(t as nat);
        let s = nat_decimal(t as nat);
        assert(is_digit(s[0]));
    }
}

} // verus!
