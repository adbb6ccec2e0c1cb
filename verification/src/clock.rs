//! Timestamps and fresh ids.
use crate::text;
use vstd::prelude::*;

verus! {

/// A lower-case hexadecimal digit.
pub open spec fn is_hex(c: char) -> bool {
    ('0' <= c && c <= '9') || ('a' <= c && c <= 'f')
}

/// The text of a random UUID without hyphens: 32 hexadecimal digits, the version digit `4` and
/// the variant digit one of `8`, `9`, `a`, `b`.
pub open spec fn is_uuid_text(s: Seq<char>) -> bool {
    &&& s.len() == 32
    &&& forall|i: int| 0 <= i < 32 ==> is_hex(#[trigger] s[i])
    &&& s[12] == '4'
    &&& (s[16] == '8' || s[16] == '9' || s[16] == 'a' || s[16] == 'b')
}

/// The two characters at `at` write a number from `least` to `most`.
pub open spec fn two_digits(s: Seq<char>, at: int, least: int, most: int) -> bool {
    &&& text::is_digit(s[at]) && text::is_digit(s[at + 1])
    &&& least <= (s[at] as int - '0' as int) * 10 + (s[at + 1] as int - '0' as int) <= most
}

/// The year of a timestamp: four digits, or from the year 10000 on a plus sign and its digits.
pub open spec fn is_year(y: Seq<char>) -> bool {
    ||| y.len() == 4 && forall|i: int| 0 <= i < 4 ==> text::is_digit(#[trigger] y[i])
    ||| y.len() >= 6 && y[0] == '+' && forall|i: int|
        1 <= i < y.len() ==> text::is_digit(#[trigger] y[i])
}

/// The rest of a date and the time of day, `-MM-DDTHH:MM:SS`.
pub open spec fn is_day_and_time(c: Seq<char>) -> bool {
    &&& c.len() == 15
    &&& c[0] == '-' && two_digits(c, 1, 1, 12)
    &&& c[3] == '-' && two_digits(c, 4, 1, 31)
    &&& c[6] == 'T' && two_digits(c, 7, 0, 23)
    &&& c[9] == ':' && two_digits(c, 10, 0, 59)
    &&& c[12] == ':' && two_digits(c, 13, 0, 59)
}

/// The fraction of a second: none, or a point and three, six or nine digits.
pub open spec fn is_fraction(f: Seq<char>) -> bool {
    ||| f.len() == 0
    ||| {
        &&& f.len() == 4 || f.len() == 7 || f.len() == 10
        &&& f[0] == '.'
        &&& forall|i: int| 1 <= i < f.len() ==> text::is_digit(#[trigger] f[i])
    }
}

/// The three parts of a timestamp that vary.
pub open spec fn are_stamp_parts(y: Seq<char>, c: Seq<char>, f: Seq<char>) -> bool {
    is_year(y) && is_day_and_time(c) && is_fraction(f)
}

/// A timestamp of this app, in the form of RFC 3339: date, `T`, time, an optional fraction, and
/// the UTC offset.
pub open spec fn is_stamp(t: Seq<char>) -> bool {
    exists|y: Seq<char>, c: Seq<char>, f: Seq<char>| #[trigger]
        are_stamp_parts(y, c, f) && t == y + c + f + "+00:00"@
}

/// A fresh id: the prefix, an underscore, and the text of a random UUID.
pub open spec fn is_fresh(prefix: Seq<char>, id: Seq<char>) -> bool {
    exists|u: Seq<char>| #[trigger] is_uuid_text(u) && id == prefix + seq!['_'] + u
}

/// The current time, from `chrono::Utc::now` and `DateTime::to_rfc3339`: the one timestamp
/// format this app writes. Which time it is is left open; the text always has the form of RFC
/// 3339, with a fraction of no, three, six or nine digits and the UTC offset `+00:00`.
#[verifier::external_body]
pub fn now_iso() -> (r: String)
    ensures
        is_stamp(r@),
{
    chrono::Utc::now().to_rfc3339()
}

/// A random UUID, from `uuid::Uuid::new_v4` in its `simple` form. Which one it is is left to
/// chance; its shape is not.
#[verifier::external_body]
fn uuid_simple() -> (r: String)
    ensures
        is_uuid_text(r@),
{
    uuid::Uuid::new_v4().simple().to_string()
}

/// A prefixed opaque id. The prefix is for the human reading a row; nothing branches on it.
pub fn new_id(prefix: &str) -> (r: String)
    ensures
        is_fresh(prefix@, r@),
{
    let u = uuid_simple();
    let mut r = prefix.to_string();
    r.push('_');
    r.append(u.as_str());
    assert(r@ =~= prefix@ + seq!['_'] + u@);
    r
}

} // verus!
