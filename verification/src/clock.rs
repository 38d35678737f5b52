//! The wall clock, read as text.

use crate::json::{is_plain, needs_escape};
use crate::text::{all_digits, is_digit};
use vstd::prelude::*;

verus! {

/// The offset that ends every UTC timestamp.
pub const UTC_OFFSET: &'static str = "+00:00";

/// The characters of `s` from `from` up to, not including, `to` are digits.
pub open spec fn digits_at(s: Seq<char>, from: int, to: int) -> bool {
    forall|i: int| from <= i < to ==> is_digit(#[trigger] s[i])
}

/// A year as it stands in a timestamp: four digits, or a sign followed by
/// at least four digits.
pub open spec fn is_year_text(s: Seq<char>) -> bool {
    ||| s.len() == 4 && all_digits(s)
    ||| s.len() >= 5 && (s[0] == '+' || s[0] == '-') && all_digits(s.subrange(1, s.len() as int))
}

/// What follows the year, from position `at` on: `-MM-DDTHH:MM:SS`, each
/// letter a digit.
pub open spec fn is_date_time_tail(s: Seq<char>, at: int) -> bool {
    &&& s[at] == '-'
    &&& digits_at(s, at + 1, at + 3)
    &&& s[at + 3] == '-'
    &&& digits_at(s, at + 4, at + 6)
    &&& s[at + 6] == 'T'
    &&& digits_at(s, at + 7, at + 9)
    &&& s[at + 9] == ':'
    &&& digits_at(s, at + 10, at + 12)
    &&& s[at + 12] == ':'
    &&& digits_at(s, at + 13, at + 15)
}

/// The number of characters that a fraction of `digits` digits takes: none
/// where there is no fraction, else the point and the digits.
pub open spec fn fraction_len(digits: int) -> int {
    if digits == 0 {
        0
    } else {
        digits + 1
    }
}

/// A UTC timestamp whose fraction of a second has `digits` digits: the
/// year, `-MM-DDTHH:MM:SS`, the fraction if there is one, and `+00:00`.
pub open spec fn is_utc_timestamp_with(s: Seq<char>, digits: int) -> bool {
    let year_len = s.len() - 21 - fraction_len(digits);
    &&& year_len >= 4
    &&& is_year_text(s.subrange(0, year_len))
    &&& is_date_time_tail(s, year_len)
    &&& digits > 0 ==> s[year_len + 15] == '.' && digits_at(
        s,
        year_len + 16,
        year_len + 16 + digits,
    )
    &&& s.subrange(s.len() - 6, s.len() as int) == UTC_OFFSET@
}

/// A date and time in UTC, in RFC 3339 format, with a fraction of a second
/// of no, three, six or nine digits: `2024-05-06T07:08:09.250+00:00`.
/// A year outside 0 to 9999 stands with its sign and may be longer than four
/// digits.
pub open spec fn is_utc_timestamp(s: Seq<char>) -> bool {
    ||| is_utc_timestamp_with(s, 0)
    ||| is_utc_timestamp_with(s, 3)
    ||| is_utc_timestamp_with(s, 6)
    ||| is_utc_timestamp_with(s, 9)
}

/// The current UTC time in RFC 3339 format: the system clock, converted by
/// `chrono` (`DateTime::<Utc>::from`) and written by `DateTime::to_rfc3339`.
///
/// Trusted: whatever the clock says, the text has the shape of a UTC
/// timestamp. Nothing is stated on the instant it denotes. A clock that
/// stands before 1970 is converted like any other; the clock is taken to
/// stand within the years that `chrono` can hold, some 262,000 either way.
#[verifier::external_body]
pub(crate) fn utc_now_rfc3339() -> (text: String)
    ensures
        is_utc_timestamp(text@),
{
    chrono::DateTime::<chrono::Utc>::from(std::time::SystemTime::now()).to_rfc3339()
}

/// A UTC timestamp has at least 25 characters, and none of them is escaped
/// in a JSON string literal.
pub proof fn lemma_utc_timestamp_is_plain(s: Seq<char>)
    requires
        is_utc_timestamp(s),
    ensures
        s.len() >= 25,
        is_plain(s),
{
    reveal_strlit("+00:00");
    let digits: int = if is_utc_timestamp_with(s, 0) {
        0
    } else if is_utc_timestamp_with(s, 3) {
        3
    } else if is_utc_timestamp_with(s, 6) {
        6
    } else {
        9
    };
    assert(is_utc_timestamp_with(s, digits));
    let len = s.len() as int;
    let year_len = len - 21 - fraction_len(digits);
    let year = s.subrange(0, year_len);
    let offset = s.subrange(len - 6, len);
    assert(offset.len() == 6);
    assert forall|i: int| 0 <= i < s.len() implies !needs_escape(#[trigger] s[i]) by {
        if i < year_len {
            assert(year[i] == s[i]);
            if year.len() != 4 || !all_digits(year) {
                if i >= 1 {
                    assert(year.subrange(1, year_len)[i - 1] == s[i]);
                }
            }
        } else if i < year_len + 15 {
            assert(is_date_time_tail(s, year_len));
        } else if i < len - 6 {
            assert(digits > 0);
        } else {
            assert(offset[i - (len - 6)] == s[i]);
        }
    }
}

} // verus!
