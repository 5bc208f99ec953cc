use vstd::prelude::*;

use thousands::Separable;

verus! {

/// The decimal digit `d` (0 to 9).
pub open spec fn digit_char(d: int) -> char {
    seq!['0', '1', '2', '3', '4', '5', '6', '7', '8', '9'][d]
}

/// The decimal digits of `n`, most significant first, without leading zeros.
pub open spec fn digits(n: nat) -> Seq<char>
    decreases n,
{
    if n < 10 {
        seq![digit_char(n as int)]
    } else {
        digits(n / 10).push(digit_char((n % 10) as int))
    }
}

/// `n` written in decimal, with a minus sign when negative.
pub open spec fn decimal(n: int) -> Seq<char> {
    if n < 0 {
        seq!['-'] + digits((-n) as nat)
    } else {
        digits(n as nat)
    }
}

/// A run of digits with a comma before each group of three counted from the right.
pub open spec fn comma_groups(d: Seq<char>) -> Seq<char>
    decreases d.len(),
{
    if d.len() <= 3 {
        d
    } else {
        comma_groups(d.subrange(0, d.len() - 3)) + seq![','] + d.subrange(d.len() - 3, d.len() as int)
    }
}

/// `n` in decimal with its digits grouped by commas, with a minus sign when negative.
pub open spec fn with_commas_spec(n: int) -> Seq<char> {
    if n < 0 {
        seq!['-'] + comma_groups(digits((-n) as nat))
    } else {
        comma_groups(digits(n as nat))
    }
}

/// `c` with an ASCII capital letter made small; any other character kept.
pub open spec fn ascii_lower_char(c: char) -> char {
    if 'A' <= c && c <= 'Z' {
        seq![
            'a', 'b', 'c', 'd', 'e', 'f', 'g', 'h', 'i', 'j', 'k', 'l', 'm',
            'n', 'o', 'p', 'q', 'r', 's', 't', 'u', 'v', 'w', 'x', 'y', 'z',
        ][(c as int) - ('A' as int)]
    } else {
        c
    }
}

pub open spec fn ascii_lower(s: Seq<char>) -> Seq<char> {
    s.map_values(|c: char| ascii_lower_char(c))
}

/// The emoji that a shortcode names, if any.
pub uninterp spec fn emoji_for(code: Seq<char>) -> Option<Seq<char>>;

/// Relies on `ToString` for `i64`: the decimal form.
#[verifier::external_body]
pub(crate) fn int_text(n: i64) -> (r: String)
    ensures
        r@ == decimal(n as int),
{
    n.to_string()
}

/// Relies on thousands' `separate_with_commas`: the decimal form with a comma
/// inserted into its run of digits before every third digit from the right.
#[verifier::external_body]
pub(crate) fn comma_text(n: i64) -> (r: String)
    ensures
        r@ == with_commas_spec(n as int),
{
    n.separate_with_commas()
}

/// Relies on `str::to_ascii_lowercase`: ASCII capitals made small, all else kept.
#[verifier::external_body]
pub(crate) fn lower_ascii(s: &str) -> (r: String)
    ensures
        r@ == ascii_lower(s@),
{
    s.to_ascii_lowercase()
}

/// Relies on emojis' `get_by_shortcode` and `Emoji::as_str`: the emoji that
/// a GitHub shortcode names.
#[verifier::external_body]
pub(crate) fn emoji_by_shortcode(code: &str) -> (r: Option<&'static str>)
    ensures
        match r {
            Some(e) => emoji_for(code@) == Some(e@),
            None => emoji_for(code@).is_none(),
        },
{
    emojis::get_by_shortcode(code).map(|e| e.as_str())
}

} // verus!
