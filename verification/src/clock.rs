//! Today's date as a display string.

use vstd::prelude::*;

verus! {

/// The pattern of the creation date: the year, then the day of the month,
/// then the month, with dashes between them.
pub open spec fn date_pattern() -> Seq<char> {
    "%Y-%d-%m"@
}

/// Whether `c` is a decimal digit.
pub open spec fn is_digit(c: char) -> bool {
    '0' <= c && c <= '9'
}

/// The shape of a date written in [`date_pattern`]: a year of at least four
/// characters, a dash, two digits for the day, a dash, two digits for the
/// month.
pub open spec fn is_date_stamp(text: Seq<char>) -> bool {
    let n = text.len() as int;
    &&& n >= 10
    &&& text[n - 6] == '-'
    &&& is_digit(text[n - 5])
    &&& is_digit(text[n - 4])
    &&& text[n - 3] == '-'
    &&& is_digit(text[n - 2])
    &&& is_digit(text[n - 1])
}

/// `chrono::Utc::now`, rendered by `DateTime::format` with the given pattern.
/// The text depends on the clock; whatever the date, the pattern gives it
/// the shape of [`is_date_stamp`]. `Utc::now` panics on a clock set before
/// 1970.
#[verifier::external_body]
pub(crate) fn utc_today(pattern: &str) -> (text: String)
    requires
        pattern@ == date_pattern(),
    ensures
        is_date_stamp(text@),
{
    chrono::Utc::now().format(pattern).to_string()
}

} // verus!
