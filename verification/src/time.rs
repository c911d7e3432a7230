//! Points in time, as the store keeps them.

use vstd::prelude::*;

verus! {

/// A date and time without a zone: whole seconds since 1970-01-01 00:00:00
/// and the nanoseconds past that second. During a leap second the
/// nanoseconds run from 1,000,000,000 up.
#[derive(Clone, Copy, Debug, PartialEq, Eq, Hash, Structural)]
pub struct Timestamp {
    pub secs: i64,
    pub nanos: u32,
}

#[verifier::external_type_specification]
#[verifier::external_body]
pub struct ExParseError(chrono::ParseError);

/// What `chrono::NaiveDateTime::parse_from_str` makes of `text` under
/// `format`: the point in time, or nothing where it reports an error.
pub uninterp spec fn parsed_date_time(text: Seq<char>, format: Seq<char>) -> Option<Timestamp>;

/// Calls `chrono::NaiveDateTime::parse_from_str`. The result depends on the
/// two texts alone; it is named, not described. A parsed value comes back
/// as its seconds and nanoseconds.
#[verifier::external_body]
pub(crate) fn parse_date_time(text: &str, format: &str) -> (r: Result<Timestamp, chrono::ParseError>)
    ensures
        r matches Ok(t) ==> parsed_date_time(text@, format@) == Some(t),
        r is Err ==> parsed_date_time(text@, format@).is_none(),
{
    match chrono::NaiveDateTime::parse_from_str(text, format) {
        Ok(t) => Ok(
            Timestamp {
                secs: t.and_utc().timestamp(),
                nanos: t.and_utc().timestamp_subsec_nanos(),
            },
        ),
        Err(e) => Err(e),
    }
}

/// Calls `chrono::ParseError`'s `Display`, through `to_string`. Nothing is
/// claimed of the text.
#[verifier::external_body]
pub(crate) fn parse_error_text(error: &chrono::ParseError) -> (text: String) {
    error.to_string()
}

/// Calls `chrono::Utc::now` and takes the reading without its zone. The
/// reading depends on the clock, so two calls differ. Trusted is only what
/// holds of every reading: the crate takes the nanoseconds from the part
/// of the system time below one second, so the reading never lies in a
/// leap second. The call aborts where the clock stands before 1970.
#[verifier::external_body]
fn clock_reading() -> (now: Timestamp)
    ensures
        now.outside_leap_second(),
{
    let t = chrono::Utc::now().naive_utc();
    Timestamp { secs: t.and_utc().timestamp(), nanos: t.and_utc().timestamp_subsec_nanos() }
}

impl Timestamp {
    /// The point in time `secs` seconds and `nanos` nanoseconds after
    /// 1970-01-01 00:00:00.
    pub fn new(secs: i64, nanos: u32) -> (t: Timestamp)
        ensures
            t.secs == secs,
            t.nanos == nanos,
    {
        Timestamp { secs, nanos }
    }

    /// The current time by the system clock. Which point that is depends
    /// on the clock alone; it is never one within a leap second.
    pub fn now() -> (now: Timestamp)
        ensures
            now.outside_leap_second(),
    {
        clock_reading()
    }

    /// Whether the point lies outside a leap second: its nanoseconds stay
    /// below one second.
    pub open spec fn outside_leap_second(self) -> bool {
        self.nanos < 1_000_000_000
    }
}

} // verus!
