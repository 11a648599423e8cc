//! The clock and the date-time text of the forms, read by the `chrono` crate.

use vstd::prelude::*;

verus! {

/// The latest time that `chrono` can hold, in seconds since the Unix epoch: the last
/// second of the year 262142.
pub open spec fn latest_time() -> int {
    8_210_266_876_799
}

/// The current time in seconds since the Unix epoch, read as `chrono::Utc::now()` reads
/// it (`SystemTime::now()` since `UNIX_EPOCH`, made a `DateTime` with
/// `chrono::DateTime::from_timestamp`) but without its panics: `None` on a clock set before
/// the epoch or past the last time that a `DateTime` holds. Claimed of it: a time it
/// returns lies between the epoch and `latest_time()`. Which time it is is left unsaid.
#[verifier::external_body]
pub(crate) fn unix_now() -> (t: Option<i64>)
    ensures
        (t matches Some(s) ==> 0 <= s <= latest_time()),
{
    let since = std::time::SystemTime::now().duration_since(std::time::UNIX_EPOCH).ok()?;
    let seconds = i64::try_from(since.as_secs()).ok()?;
    chrono::DateTime::from_timestamp(seconds, since.subsec_nanos()).map(|d| d.timestamp())
}

/// What `NaiveDateTime::parse_from_str(text, "%Y-%m-%dT%H:%M")` reads from `text`, as
/// seconds since the Unix epoch taking the time as UTC, or the parse error's text.
pub uninterp spec fn form_date_time(text: Seq<char>) -> Result<i64, Seq<char>>;

/// Calls `NaiveDateTime::parse_from_str(text, "%Y-%m-%dT%H:%M")` and turns a success into
/// seconds since the Unix epoch (`and_utc().timestamp()`) and an error into its text.
/// Claimed of it: the result is `form_date_time(text)`, and empty text is refused (the
/// format asks for a year first).
#[verifier::external_body]
pub(crate) fn parse_form_date_time(text: &str) -> (r: Result<i64, String>)
    ensures
        match r {
            Ok(t) => form_date_time(text@) == Ok::<i64, Seq<char>>(t),
            Err(e) => form_date_time(text@) == Err::<i64, Seq<char>>(e@),
        },
        text@.len() == 0 ==> r is Err,
{
    match chrono::NaiveDateTime::parse_from_str(text, "%Y-%m-%dT%H:%M") {
        Ok(t) => Ok(t.and_utc().timestamp()),
        Err(e) => Err(e.to_string()),
    }
}

/// What `chrono::DateTime::from_timestamp(t, 0)` writes for the time `t` (seconds since
/// the Unix epoch, in UTC) with the patterns `%Y-%m-%dT%H:%M:%S` and `%Y/%m/%d %H:%M`, or
/// `None` when `t` lies outside the times that a `DateTime` holds.
pub uninterp spec fn date_time_texts(t: i64) -> Option<(Seq<char>, Seq<char>)>;

/// Calls `chrono::DateTime::from_timestamp(t, 0)` and writes the time with
/// `format("%Y-%m-%dT%H:%M:%S")` and `format("%Y/%m/%d %H:%M")`. Claimed of it: the result
/// is `date_time_texts(t)`, and every time from the epoch to `latest_time()` can be
/// written (both patterns are fixed and valid, so formatting cannot fail).
#[verifier::external_body]
pub(crate) fn format_date_time(t: i64) -> (r: Option<(String, String)>)
    ensures
        match r {
            Some((a, b)) => date_time_texts(t) == Some((a@, b@)),
            None => date_time_texts(t) is None,
        },
        (0 <= t <= latest_time() ==> r is Some),
{
    match chrono::DateTime::from_timestamp(t, 0) {
        Some(d) => Some((d.format("%Y-%m-%dT%H:%M:%S").to_string(), d.format("%Y/%m/%d %H:%M").to_string())),
        None => None,
    }
}

} // verus!
