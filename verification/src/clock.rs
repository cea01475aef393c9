//! Local wall-clock readings.  Only the clock call itself is trusted;
//! turning a reading into a well-formed timestamp is verified, and
//! everything downstream works on the plain timestamp value.

use vstd::prelude::*;

verus! {

/// One local wall-clock reading, at second granularity.  Snapshot
/// filenames use only the minute and above.
#[derive(Clone, Copy, Debug, PartialEq, Eq, Structural)]
pub struct Timestamp {
    /// Calendar year, at most four digits.
    pub year: u32,
    /// Calendar month, 1 to 12.
    pub month: u32,
    /// Day of month, 1 to 31.
    pub day: u32,
    /// Hour of day, 0 to 23.
    pub hour: u32,
    /// Minute, 0 to 59.
    pub minute: u32,
    /// Second, 0 to 59; never part of a filename.
    pub second: u32,
}

impl Timestamp {
    /// Every field is inside its calendar range and the year fits the
    /// four-digit filename format.
    pub open spec fn wf(self) -> bool {
        &&& self.year <= 9999
        &&& 1 <= self.month <= 12
        &&& 1 <= self.day <= 31
        &&& self.hour < 24
        &&& self.minute < 60
        &&& self.second < 60
    }

    /// Decides well-formedness for a timestamp built outside the
    /// library.
    pub fn check_wf(&self) -> (r: bool)
        ensures
            r == self.wf(),
    {
        self.year <= 9999 && 1 <= self.month && self.month <= 12 && 1 <= self.day && self.day
            <= 31 && self.hour < 24 && self.minute < 60 && self.second < 60
    }

    /// Builds a timestamp from raw clock parts, accepting exactly the
    /// values inside the calendar ranges and a year of at most four
    /// digits.
    pub fn from_parts(year: i32, month: u32, day: u32, hour: u32, minute: u32, second: u32) -> (r:
        Option<Timestamp>)
        ensures
            r is Some <==> (0 <= year <= 9999 && 1 <= month <= 12 && 1 <= day <= 31 && hour < 24
                && minute < 60 && second < 60),
            r is Some ==> r->Some_0 == (Timestamp {
                year: year as u32,
                month,
                day,
                hour,
                minute,
                second,
            }),
            r is Some ==> r->Some_0.wf(),
    {
        if 0 <= year && year <= 9999 && 1 <= month && month <= 12 && 1 <= day && day <= 31 && hour
            < 24 && minute < 60 && second < 60 {
            Some(
                Timestamp {
                    year: year as u32,
                    month,
                    day,
                    hour,
                    minute,
                    second,
                },
            )
        } else {
            None
        }
    }
}

/// Relies on chrono::Local::now and the Datelike/Timelike accessors of
/// the returned date-time: month is 1 to 12, day of month 1 to 31, hour
/// 0 to 23, minute and second 0 to 59.
#[verifier::external_body]
fn local_now_parts() -> (r: (i32, u32, u32, u32, u32, u32))
    ensures
        1 <= r.1 <= 12,
        1 <= r.2 <= 31,
        r.3 < 24,
        r.4 < 60,
        r.5 < 60,
{
    let t = chrono::Local::now();
    (
        chrono::Datelike::year(&t),
        chrono::Datelike::month(&t),
        chrono::Datelike::day(&t),
        chrono::Timelike::hour(&t),
        chrono::Timelike::minute(&t),
        chrono::Timelike::second(&t),
    )
}

/// Reads the local clock.  Which moment comes back depends on when the
/// call is made; whatever it is, a `Some` result is a well-formed
/// timestamp, and `None` can come only from a year outside 0 to 9999.
pub fn now() -> (r: Option<Timestamp>)
    ensures
        r is Some ==> r->Some_0.wf(),
{
    let (y, mo, d, h, mi, s) = local_now_parts();
    Timestamp::from_parts(y, mo, d, h, mi, s)
}

} // verus!
