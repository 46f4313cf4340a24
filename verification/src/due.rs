use vstd::prelude::*;

verus! {

/// What `chrono::NaiveDateTime::parse_from_str(s, fmt)` gives, read as
/// seconds since 1970-01-01 00:00:00 on the same wall clock.
pub uninterp spec fn chrono_datetime_seconds(s: Seq<char>, fmt: Seq<char>) -> Option<i64>;

/// What `chrono::NaiveDate::parse_from_str(s, fmt)` gives, read as the
/// seconds from 1970-01-01 00:00:00 to the start of that day.
pub uninterp spec fn chrono_date_seconds(s: Seq<char>, fmt: Seq<char>) -> Option<i64>;

/// `chrono::NaiveDateTime::parse_from_str`, whose result this reads as
/// `and_utc().timestamp()`. The contract claims that the result depends on
/// `s` and `fmt` alone, and nothing of what the parser accepts.
#[verifier::external_body]
fn parse_datetime_seconds(s: &str, fmt: &str) -> (r: Option<i64>)
    ensures
        r == chrono_datetime_seconds(s@, fmt@),
{
    match chrono::NaiveDateTime::parse_from_str(s, fmt) {
        Ok(dt) => Some(dt.and_utc().timestamp()),
        Err(_) => None,
    }
}

/// `chrono::NaiveDate::parse_from_str`, whose date this reads at 00:00:00
/// (`and_hms_opt(0, 0, 0)`, then `and_utc().timestamp()`). The contract
/// claims that the result depends on `s` and `fmt` alone, and nothing of
/// what the parser accepts.
#[verifier::external_body]
fn parse_date_seconds(s: &str, fmt: &str) -> (r: Option<i64>)
    ensures
        r == chrono_date_seconds(s@, fmt@),
{
    match chrono::NaiveDate::parse_from_str(s, fmt) {
        Ok(d) => match d.and_hms_opt(0, 0, 0) {
            Some(dt) => Some(dt.and_utc().timestamp()),
            None => None,
        },
        Err(_) => None,
    }
}

/// The first of three readings that succeeded.
pub open spec fn first_reading(a: Option<i64>, b: Option<i64>, c: Option<i64>) -> Option<i64> {
    match a {
        Some(x) => Some(x),
        None => match b {
            Some(x) => Some(x),
            None => c,
        },
    }
}

/// When a due date given as text falls, in seconds since 1970-01-01 00:00:00:
/// read as `YYYY-MM-DD HH:MM`, else as `YYYY-MM-DD HH:MM:SS`, else as
/// `YYYY-MM-DD` at 00:00.
pub open spec fn due_seconds(s: Seq<char>) -> Option<i64> {
    first_reading(
        chrono_datetime_seconds(s, "%Y-%m-%d %H:%M"@),
        chrono_datetime_seconds(s, "%Y-%m-%d %H:%M:%S"@),
        chrono_date_seconds(s, "%Y-%m-%d"@),
    )
}

/// The first of three readings that succeeded.
pub fn first_reading_of(a: Option<i64>, b: Option<i64>, c: Option<i64>) -> (r: Option<i64>)
    ensures
        r == first_reading(a, b, c),
{
    match a {
        Some(x) => Some(x),
        None => match b {
            Some(x) => Some(x),
            None => c,
        },
    }
}

/// Reads a due date, `YYYY-MM-DD HH:MM`, `YYYY-MM-DD HH:MM:SS` or
/// `YYYY-MM-DD` (at 00:00), as seconds since 1970-01-01 00:00:00 on the
/// clock that it was written in.
pub fn parse_due_date(s: &str) -> (r: Option<i64>)
    ensures
        r == due_seconds(s@),
{
    let a = parse_datetime_seconds(s, "%Y-%m-%d %H:%M");
    let b = parse_datetime_seconds(s, "%Y-%m-%d %H:%M:%S");
    let c = parse_date_seconds(s, "%Y-%m-%d");
    first_reading_of(a, b, c)
}

/// The Unix timestamp of a due date, the date taken as UTC.
pub fn due_to_timestamp(due_date: &str) -> (r: Option<i64>)
    ensures
        r == due_seconds(due_date@),
{
    parse_due_date(due_date)
}

/// The span of the scheduled event made for a task: an hour from its due date.
pub fn event_span(due_date: &str) -> (r: Option<(i64, i64)>)
    ensures
        r == (match due_seconds(due_date@) {
            Some(start) => if start + 3600 <= i64::MAX {
                Some((start, (start + 3600) as i64))
            } else {
                None
            },
            None => None,
        }),
{
    match due_to_timestamp(due_date) {
        Some(start) => {
            if start <= i64::MAX - 3600 {
                Some((start, start + 3600))
            } else {
                None
            }
        },
        None => None,
    }
}

/// `chrono`'s rendering of a Unix timestamp as UTC in the form
/// `%Y-%m-%d %H:%M:%S UTC`, or `None` when the timestamp is out of
/// `chrono`'s range.
pub uninterp spec fn chrono_utc_stamp(secs: i64) -> Option<Seq<char>>;

/// `chrono::DateTime::<Utc>::from_timestamp(secs, 0)`, formatted with
/// `format("%Y-%m-%d %H:%M:%S UTC")`. The contract claims that the text
/// depends on `secs` alone, and nothing of its shape.
#[verifier::external_body]
fn format_utc_stamp(secs: i64) -> (r: Option<String>)
    ensures
        match r {
            Some(t) => chrono_utc_stamp(secs) == Some(t@),
            None => chrono_utc_stamp(secs) is None,
        },
{
    match chrono::DateTime::from_timestamp(secs, 0) {
        Some(dt) => Some(dt.format("%Y-%m-%d %H:%M:%S UTC").to_string()),
        None => None,
    }
}

/// The creation time stored with a new task, `YYYY-MM-DD HH:MM:SS UTC`,
/// from the Unix timestamp of its creation.
pub fn created_at_text(now_secs: i64) -> (r: Option<String>)
    ensures
        match r {
            Some(t) => chrono_utc_stamp(now_secs) == Some(t@),
            None => chrono_utc_stamp(now_secs) is None,
        },
{
    format_utc_stamp(now_secs)
}

} // verus!
