//! Timestamps: parsing the textual forms that sessions and filters use into
//! an instant, comparing instants, and rendering them for display.

use vstd::prelude::*;

verus! {

/// A point in time: whole seconds since the Unix epoch (UTC) and the
/// nanoseconds past that second.
#[derive(Debug, Clone, Copy, PartialEq, Eq)]
pub struct Instant {
    pub secs: i64,
    pub nanos: u32,
}

/// The instant as a pair, as the parsing functions name it.
pub open spec fn pair_of(i: Instant) -> (i64, u32) {
    (i.secs, i.nanos)
}

/// `a` comes strictly before `b`.
pub open spec fn earlier(a: (i64, u32), b: (i64, u32)) -> bool {
    a.0 < b.0 || (a.0 == b.0 && a.1 < b.1)
}

/// The instant that chrono reads from a timestamp in (relaxed) RFC 3339 form,
/// converted to UTC; `None` when the text is not such a timestamp.
pub uninterp spec fn rfc3339_instant(s: Seq<char>) -> Option<(i64, u32)>;

/// The instant of midnight UTC of a date written `YYYY-MM-DD`, as chrono
/// reads it; `None` when the text is not such a date.
pub uninterp spec fn day_start_instant(s: Seq<char>) -> Option<(i64, u32)>;

/// The text `YYYY-MM-DD HH:MM:SS UTC` of an instant, as chrono formats it.
pub uninterp spec fn utc_text(secs: i64, nanos: u32) -> Seq<char>;

/// Relies on `<chrono::DateTime<chrono::Utc> as FromStr>::from_str`, read back
/// through `timestamp` and `timestamp_subsec_nanos`.
#[verifier::external_body]
fn parse_rfc3339(s: &str) -> (r: Option<Instant>)
    ensures
        match r {
            Some(i) => rfc3339_instant(s@) == Some(pair_of(i)),
            None => rfc3339_instant(s@) is None,
        },
{
    match s.parse::<chrono::DateTime<chrono::Utc>>() {
        Ok(dt) => Some(Instant { secs: dt.timestamp(), nanos: dt.timestamp_subsec_nanos() }),
        Err(_) => None,
    }
}

/// Relies on `chrono::NaiveDate::parse_from_str` with the format `%Y-%m-%d`,
/// taken at midnight UTC; parsing reports failure as an error, and
/// `and_time` and `and_utc` are total.
#[verifier::external_body]
fn parse_day(s: &str) -> (r: Option<Instant>)
    ensures
        match r {
            Some(i) => day_start_instant(s@) == Some(pair_of(i)),
            None => day_start_instant(s@) is None,
        },
{
    match chrono::NaiveDate::parse_from_str(s, "%Y-%m-%d") {
        Ok(d) => {
            let dt = d.and_time(chrono::NaiveTime::MIN).and_utc();
            Some(Instant { secs: dt.timestamp(), nanos: dt.timestamp_subsec_nanos() })
        },
        Err(_) => None,
    }
}

/// Relies on `chrono::DateTime::<chrono::Utc>::from_timestamp` and `format`
/// with `%Y-%m-%d %H:%M:%S UTC`; `None` when the instant is out of chrono's
/// range. An instant read back from a parsed timestamp (`timestamp`,
/// `timestamp_subsec_nanos`) is in range: `from_timestamp` gives that
/// timestamp back, as its documentation shows. The format string holds only
/// valid items and a `DateTime` supplies both date and time, so formatting
/// does not fail and `to_string` does not panic.
#[verifier::external_body]
fn render_utc(i: Instant) -> (r: Option<String>)
    ensures
        r matches Some(t) ==> t@ == utc_text(i.secs, i.nanos),
        (exists|s: Seq<char>| #[trigger] rfc3339_instant(s) == Some(pair_of(i))) ==> r is Some,
{
    match chrono::DateTime::<chrono::Utc>::from_timestamp(i.secs, i.nanos) {
        Some(dt) => Some(dt.format("%Y-%m-%d %H:%M:%S UTC").to_string()),
        None => None,
    }
}

/// Reads an RFC 3339 timestamp.
pub fn parse_timestamp(s: &str) -> (r: Option<Instant>)
    ensures
        match r {
            Some(i) => rfc3339_instant(s@) == Some(pair_of(i)),
            None => rfc3339_instant(s@) is None,
        },
{
    parse_rfc3339(s)
}

/// Renders a timestamp as `YYYY-MM-DD HH:MM:SS UTC`; text that is not a
/// timestamp is returned unchanged.
pub fn format_timestamp(ts: &str) -> (r: String)
    ensures
        rfc3339_instant(ts@) is None ==> r@ == ts@,
        rfc3339_instant(ts@) matches Some(p) ==> r@ == utc_text(p.0, p.1),
{
    match parse_rfc3339(ts) {
        Some(i) => match render_utc(i) {
            Some(t) => t,
            None => String::from_str(ts),
        },
        None => String::from_str(ts),
    }
}

/// Why a date given as a filter bound was refused.
#[derive(Debug, Clone, PartialEq, Eq)]
pub struct InvalidDate {
    pub text: String,
}

impl InvalidDate {
    pub fn message(&self) -> (r: String)
        ensures
            r@ == "Invalid date format: '"@ + self.text@
                + "'. Use YYYY-MM-DD or ISO8601 (e.g. 2025-01-15T00:00:00Z)"@,
    {
        String::from_str("Invalid date format: '").concat(self.text.as_str()).concat(
            "'. Use YYYY-MM-DD or ISO8601 (e.g. 2025-01-15T00:00:00Z)",
        )
    }
}

/// The instant a date filter stands for: a full RFC 3339 timestamp, else a
/// `YYYY-MM-DD` date at midnight UTC.
pub open spec fn date_filter_instant(s: Seq<char>) -> Option<(i64, u32)> {
    match rfc3339_instant(s) {
        Some(p) => Some(p),
        None => day_start_instant(s),
    }
}

/// Reads a date filter bound, trying a full timestamp first.
pub fn parse_date_filter(s: &str) -> (r: Result<Instant, InvalidDate>)
    ensures
        match r {
            Ok(i) => date_filter_instant(s@) == Some(pair_of(i)),
            Err(e) => date_filter_instant(s@) is None && e.text@ == s@,
        },
{
    match parse_rfc3339(s) {
        Some(i) => Ok(i),
        None => match parse_day(s) {
            Some(i) => Ok(i),
            None => Err(InvalidDate { text: String::from_str(s) }),
        },
    }
}

/// Whether `a` comes strictly before `b`.
pub fn is_earlier(a: Instant, b: Instant) -> (r: bool)
    ensures
        r == earlier(pair_of(a), pair_of(b)),
{
    a.secs < b.secs || (a.secs == b.secs && a.nanos < b.nanos)
}

} // verus!
