//! Fresh record identifiers, and the current time as records and tokens carry it.
use vstd::prelude::*;

verus! {

/// Whether `c` is a lowercase hexadecimal digit.
pub open spec fn is_lower_hex(c: char) -> bool {
    ('0' <= c && c <= '9') || ('a' <= c && c <= 'f')
}

/// Whether `s` is a UUID written as lowercase hex in the hyphenated
/// 8-4-4-4-12 layout.
pub open spec fn is_hyphenated_uuid(s: Seq<char>) -> bool {
    &&& s.len() == 36
    &&& forall|i: int|
        0 <= i < 36 ==> if i == 8 || i == 13 || i == 18 || i == 23 {
            #[trigger] s[i] == '-'
        } else {
            is_lower_hex(s[i])
        }
}

/// A random identifier for a new record: `uuid::Uuid::new_v4`, written with `to_string`.
/// Trusted: the text is a lowercase hyphenated UUID (its `Display` is the
/// lowercase hex 8-4-4-4-12 form); which UUID comes back is left open.
#[verifier::external_body]
pub(crate) fn new_record_id() -> (id: String)
    ensures
        is_hyphenated_uuid(id@),
{
    uuid::Uuid::new_v4().to_string()
}

/// The current time, `chrono::Utc::now()` written with `to_rfc3339`.
/// Nothing is stated of the text: it depends on the clock.
#[verifier::external_body]
pub(crate) fn now_rfc3339() -> (t: String) {
    chrono::Utc::now().to_rfc3339()
}

/// The current time and the time `hours` hours later, each in whole seconds
/// since the Unix epoch: `chrono::Utc::now()` and that instant plus
/// `chrono::Duration::hours(hours)`, both read with `timestamp`.
/// Trusted: the second lies exactly `hours` hours after the first; the first
/// depends on the clock. The bound on `hours` keeps both instants within
/// chrono's range, outside of which it panics.
#[verifier::external_body]
pub(crate) fn now_and_hours_later(hours: i64) -> (r: (i64, i64))
    requires
        -2_000_000_000 <= hours <= 2_000_000_000,
    ensures
        r.1 == r.0 + hours * 3600,
{
    let now = chrono::Utc::now();
    let later = now + chrono::Duration::hours(hours);
    (now.timestamp(), later.timestamp())
}

/// The calendar date `days` days after `date`, both written as chrono's
/// `format("%Y-%m-%d")` writes a UTC date.
pub uninterp spec fn days_later(date: Seq<char>, days: int) -> Seq<char>;

/// Today's date and the date `days` days from now, as `YYYY-MM-DD`:
/// `chrono::Utc::now()` and that instant plus `chrono::Duration::days(days)`,
/// both written with `format("%Y-%m-%d")`.
/// Trusted: the second date is `days` calendar days after the first (UTC has
/// no shifts, so adding whole days of seconds moves the date by that many
/// days), and with no days in between both dates are the same; which day the
/// first one is depends on the clock.
#[verifier::external_body]
pub(crate) fn today_and_days_later(days: i64) -> (r: (String, String))
    requires
        0 <= days <= 365,
    ensures
        r.1@ == days_later(r.0@, days as int),
        days == 0 ==> r.0@ == r.1@,
{
    let start = chrono::Utc::now();
    let end = start + chrono::Duration::days(days);
    (start.format("%Y-%m-%d").to_string(), end.format("%Y-%m-%d").to_string())
}

} // verus!
