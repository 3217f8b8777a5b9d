//! The wall clock, and the form of the timestamps that it gives.

use vstd::prelude::*;

verus! {

/// A decimal digit.
pub open spec fn is_decimal_digit(c: char) -> bool {
    '0' <= c <= '9'
}

/// The mark at position `k` of `-MM-DDTHH:MM:SS.mmmZ`, or `None` where a
/// digit stands there.
pub open spec fn mark_at(k: int) -> Option<char> {
    if k == 0 || k == 3 {
        Some('-')
    } else if k == 6 {
        Some('T')
    } else if k == 9 || k == 12 {
        Some(':')
    } else if k == 15 {
        Some('.')
    } else if k == 19 {
        Some('Z')
    } else {
        None
    }
}

/// The text is a time in UTC with milliseconds, as RFC 3339 writes it:
/// `YYYY-MM-DDTHH:MM:SS.mmmZ`. A year after 9999 has more digits and `+`
/// before them.
pub open spec fn is_utc_millis_timestamp(text: Seq<char>) -> bool {
    let year = text.len() - 20;
    &&& year >= 4
    &&& forall|i: int|
        0 <= i < year ==> is_decimal_digit(#[trigger] text[i]) || (i == 0 && year > 4 && text[i]
            == '+')
    &&& forall|i: int|
        year <= i < text.len() ==> match mark_at(i - year) {
            Some(mark) => #[trigger] text[i] == mark,
            None => is_decimal_digit(text[i]),
        }
}

/// Calls `chrono::Utc::now` and writes the time with `to_rfc3339_opts`, in
/// milliseconds and with `Z` for the offset, as in
/// `2018-01-26T18:30:09.453Z`. Which time it is depends on the clock of the
/// machine, so only the form of the text is promised. `chrono` panics where
/// that clock stands before 1970.
#[verifier::external_body]
pub(crate) fn current_timestamp() -> (timestamp: String)
    ensures
        is_utc_millis_timestamp(timestamp@),
{
    chrono::Utc::now().to_rfc3339_opts(chrono::SecondsFormat::Millis, true)
}

} // verus!
