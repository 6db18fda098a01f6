//! The local time, as the text that is written into the rows.

use crate::validation::{all_digits, is_digit};
use vstd::prelude::*;

verus! {

/// Whether `year` writes a year: four digits for the years 0 to 9999, and for
/// any other year a sign followed by four digits or more.
pub open spec fn is_year_text(year: Seq<char>) -> bool {
    ||| year.len() == 4 && all_digits(year)
    ||| year.len() >= 5 && (year[0] == '+' || year[0] == '-') && all_digits(year.drop_first())
}

/// Whether `text` has the form of a timestamp, `YYYY-MM-DD HH:MM:SS`: a
/// year, then month, day, hour, minute and second, each of two digits, with
/// `-` between the parts of the date, a blank before the time and `:`
/// between the parts of the time. The year has four digits up to the year
/// 9999.
pub open spec fn is_timestamp(text: Seq<char>) -> bool {
    let cut = text.len() - 15;
    &&& text.len() >= 19
    &&& is_year_text(text.subrange(0, cut))
    &&& text[cut] == '-'
    &&& is_digit(text[cut + 1])
    &&& is_digit(text[cut + 2])
    &&& text[cut + 3] == '-'
    &&& is_digit(text[cut + 4])
    &&& is_digit(text[cut + 5])
    &&& text[cut + 6] == ' '
    &&& is_digit(text[cut + 7])
    &&& is_digit(text[cut + 8])
    &&& text[cut + 9] == ':'
    &&& is_digit(text[cut + 10])
    &&& is_digit(text[cut + 11])
    &&& text[cut + 12] == ':'
    &&& is_digit(text[cut + 13])
    &&& is_digit(text[cut + 14])
}

/// `chrono::Local::now`, written out by `chrono::DateTime::format` with the
/// pattern given and turned into a `String`. Which time is written depends
/// on the clock and on the time zone of the machine, so nothing is promised
/// of that. What is promised is the form that `chrono` gives to every time
/// under this pattern: `%Y` writes the year with four digits, or with a sign
/// and four digits or more where it lies outside 0 to 9999; `%m`, `%d`,
/// `%H`, `%M` and `%S` write two digits each; every other character of the
/// pattern is written as it stands. The one pattern admitted is known to
/// `chrono`: with it, writing out does not fail. On a machine whose clock
/// stands before the year 1970 `chrono` gives up with a panic; no argument
/// of this function changes that.
#[verifier::external_body]
fn local_time_as(pattern: &str) -> (text: String)
    requires
        pattern@ == "%Y-%m-%d %H:%M:%S"@,
    ensures
        is_timestamp(text@),
{
    chrono::Local::now().format(pattern).to_string()
}

/// The local time of this moment in the form `YYYY-MM-DD HH:MM:SS`. Which
/// moment it is, only the clock says; the form is that of a timestamp.
pub(crate) fn timestamp_now() -> (text: String)
    ensures
        is_timestamp(text@),
{
    local_time_as("%Y-%m-%d %H:%M:%S")
}

} // verus!
