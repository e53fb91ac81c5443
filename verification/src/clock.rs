//! Readings of the clock and calendar conversions, made by `chrono`.
use vstd::prelude::*;

use crate::config::opt_text;

verus! {

/// A time stamp of the format `%Y-%m-%d %H:%M:%S UTC`: the text that some
/// whole second since the UNIX epoch formats to, ending with the literal
/// ` UTC`.
pub open spec fn utc_stamp(t: Seq<char>) -> bool {
    &&& t.len() >= 4
    &&& t.skip(t.len() - 4) == " UTC"@
    &&& exists|secs: int| #[trigger] utc_timestamp_text(secs) == Some(t)
}

/// The current UTC time as `chrono::Utc::now()` formats it with
/// `%Y-%m-%d %H:%M:%S UTC`. It depends on the moment of the call, so the
/// contract claims only what every outcome has: the format drops the
/// fraction of a second, so the text is what the whole second of the
/// moment formats to with `DateTime::from_timestamp` (the name
/// `utc_timestamp_text`), and it ends with the literal ` UTC`. Which second
/// it is, is left unsaid.
#[verifier::external_body]
pub(crate) fn utc_now_text() -> (r: String)
    ensures
        utc_stamp(r@),
{
    chrono::Utc::now().format("%Y-%m-%d %H:%M:%S UTC").to_string()
}

/// What `chrono::DateTime::from_timestamp(secs, 0)` formatted with
/// `%Y-%m-%d %H:%M:%S UTC` gives: `None` when `secs` is out of chrono's range.
pub uninterp spec fn utc_timestamp_text(secs: int) -> Option<Seq<char>>;

/// Calls `chrono::DateTime::from_timestamp(secs, 0)` and formats the
/// result with `%Y-%m-%d %H:%M:%S UTC`. The contract claims only that the
/// result is a function of `secs`, named `utc_timestamp_text`.
#[verifier::external_body]
pub(crate) fn timestamp_text(secs: i64) -> (r: Option<String>)
    ensures
        opt_text(r) == utc_timestamp_text(secs as int),
{
    match chrono::DateTime::from_timestamp(secs, 0) {
        Some(dt) => Some(dt.format("%Y-%m-%d %H:%M:%S UTC").to_string()),
        None => None,
    }
}

/// What `chrono::NaiveDateTime::parse_from_str(s, fmt)` gives, taken as a
/// UTC time (`and_utc`) and read as a UNIX timestamp (`timestamp`), or
/// `None` on a parse error.
pub uninterp spec fn naive_utc_timestamp(s: Seq<char>, fmt: Seq<char>) -> Option<int>;

/// Calls `chrono::NaiveDateTime::parse_from_str(s, fmt)`, takes the result
/// as UTC and reads its timestamp. The contract claims only that the result
/// is a function of `s` and `fmt`, named `naive_utc_timestamp`.
#[verifier::external_body]
pub(crate) fn parse_utc_timestamp(s: &str, fmt: &str) -> (r: Option<i64>)
    ensures
        match r {
            Some(t) => naive_utc_timestamp(s@, fmt@) == Some(t as int),
            None => naive_utc_timestamp(s@, fmt@) is None,
        },
{
    match chrono::NaiveDateTime::parse_from_str(s, fmt) {
        Ok(dt) => Some(dt.and_utc().timestamp()),
        Err(_) => None,
    }
}

} // verus!
