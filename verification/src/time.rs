//! Points in time, and the text that stands for one.

use crate::text::err_view;
use vstd::prelude::*;

verus! {

/// The first second of the calendar that times are written in.
pub const MIN_SECS: i64 = -8_334_601_228_800;

/// The last one.
pub const MAX_SECS: i64 = 8_210_266_876_799;

/// A point in time: seconds since the start of 1970 in UTC, and nanoseconds of the second. Those
/// of a leap second go on from the second before it, which is the last of its minute.
#[derive(Debug, Clone, Copy, PartialEq, Eq, Structural)]
pub struct Timestamp {
    secs: i64,
    nanos: u32,
}

/// A point in time as a value.
pub struct TimeModel {
    pub secs: int,
    pub nanos: int,
}

pub open spec fn in_calendar(secs: int, nanos: int) -> bool {
    &&& MIN_SECS <= secs <= MAX_SECS
    &&& 0 <= nanos < 2_000_000_000
    &&& nanos >= 1_000_000_000 ==> secs % 60 == 59
}

impl View for Timestamp {
    type V = TimeModel;

    closed spec fn view(&self) -> TimeModel {
        TimeModel { secs: self.secs as int, nanos: self.nanos as int }
    }
}

impl TimeModel {
    /// Whether this point comes before the other.
    pub open spec fn before(self, other: TimeModel) -> bool {
        self.secs < other.secs || (self.secs == other.secs && self.nanos < other.nanos)
    }

    pub open spec fn leaps(self) -> bool {
        self.nanos >= 1_000_000_000
    }

    /// The second of the day.
    pub open spec fn day_second(self) -> int {
        self.secs % 86_400
    }

    /// The nanoseconds since another point in time. The leap second that the point with the
    /// earlier time of day lies in is counted.
    pub open spec fn since(self, other: TimeModel) -> int {
        let leap: int = if self.day_second() > other.day_second() && other.leaps() {
            1
        } else if self.day_second() < other.day_second() && self.leaps() {
            -1
        } else {
            0
        };
        (self.secs - other.secs + leap) * 1_000_000_000 + (self.nanos - other.nanos)
    }

    /// The whole milliseconds since another point in time; none where it is not earlier.
    pub open spec fn millis_since(self, other: TimeModel) -> int {
        let gone = self.since(other);
        if gone <= 0 {
            0
        } else {
            gone / 1_000_000
        }
    }

    /// The point in time some days later. Another day has no leap second for it.
    pub open spec fn days_later(self, days: int) -> TimeModel {
        TimeModel {
            secs: self.secs + days * 86_400,
            nanos: if days > 0 && self.leaps() {
                self.nanos - 1_000_000_000
            } else {
                self.nanos
            },
        }
    }
}

/// The RFC 3339 text of a point in time.
pub uninterp spec fn rfc3339_text(secs: i64, nanos: u32) -> Seq<char>;

/// The seconds and nanoseconds that a text stands for, or what is wrong with it.
pub uninterp spec fn rfc3339_parsed(text: Seq<char>) -> Result<(i64, u32), Seq<char>>;

/// `chrono::DateTime::to_rfc3339` on the time that `DateTime::from_timestamp` makes of the
/// two numbers: the RFC 3339 text of that time in UTC, which is never empty.
#[verifier::external_body]
fn rfc3339_format(secs: i64, nanos: u32) -> (r: String)
    requires
        in_calendar(secs as int, nanos as int),
    ensures
        r@ == rfc3339_text(secs, nanos),
        r@.len() > 0,
{
    chrono::DateTime::from_timestamp(secs, nanos).map(|t| t.to_rfc3339()).unwrap_or_default()
}

/// A time whose text can be read back: one in the years 0 to 9999.
pub open spec fn written_time(secs: i64, nanos: u32) -> bool {
    -62_167_219_200 <= secs <= 253_402_300_799 && in_calendar(secs as int, nanos as int)
}

/// `chrono::DateTime::parse_from_rfc3339`, with the time as seconds and nanoseconds, which are
/// those of a time in the calendar. It reads back what `to_rfc3339` wrote of a time in the years
/// 0 to 9999.
#[verifier::external_body]
fn rfc3339_parse(text: &str) -> (r: Result<(i64, u32), String>)
    ensures
        err_view(r) == rfc3339_parsed(text@),
        r matches Ok(t) ==> in_calendar(t.0 as int, t.1 as int),
        r matches Ok(t) ==> (forall|secs: i64, nanos: u32|
            written_time(secs, nanos) && text@ == #[trigger] rfc3339_text(secs, nanos) ==> t == (
                secs,
                nanos,
            )),
        r is Err ==> (forall|secs: i64, nanos: u32|
            written_time(secs, nanos) ==> text@ != #[trigger] rfc3339_text(secs, nanos)),
{
    chrono::DateTime::parse_from_rfc3339(text)
        .map(|t| (t.timestamp(), t.timestamp_subsec_nanos()))
        .map_err(|e| e.to_string())
}

impl TimeModel {
    pub open spec fn text(self) -> Seq<char> {
        rfc3339_text(self.secs as i64, self.nanos as u32)
    }

    /// A time in the years 0 to 9999, which the text form is made for.
    pub open spec fn four_digit_year(self) -> bool {
        written_time(self.secs as i64, self.nanos as u32)
    }
}

impl Timestamp {
    #[verifier::type_invariant]
    spec fn wf(self) -> bool {
        in_calendar(self.secs as int, self.nanos as int)
    }

    /// The point in time with these seconds and nanoseconds, where the calendar has it.
    pub fn new(secs: i64, nanos: u32) -> (r: Option<Timestamp>)
        ensures
            r is Some <==> in_calendar(secs as int, nanos as int),
            r matches Some(t) ==> t@ == (TimeModel { secs: secs as int, nanos: nanos as int }),
    {
        if secs < MIN_SECS || MAX_SECS < secs || nanos >= 2_000_000_000 {
            return None;
        }
        let from_first: u64 = (secs - MIN_SECS) as u64;
        if nanos >= 1_000_000_000 && from_first % 60 != 59 {
            return None;
        }
        Some(Timestamp { secs, nanos })
    }

    pub fn secs(&self) -> (r: i64)
        ensures
            r == self@.secs,
    {
        self.secs
    }

    pub fn nanos(&self) -> (r: u32)
        ensures
            r == self@.nanos,
    {
        self.nanos
    }

    /// Whether this is the same point as the other.
    pub fn same_time(&self, other: &Timestamp) -> (r: bool)
        ensures
            r == (self@ == other@),
    {
        self.secs == other.secs && self.nanos == other.nanos
    }

    /// Whether this point comes before the other or is the same.
    pub fn at_or_before(&self, other: &Timestamp) -> (r: bool)
        ensures
            r == !other@.before(self@),
    {
        self.secs < other.secs || (self.secs == other.secs && self.nanos <= other.nanos)
    }

    /// The second of the day, counted from the first one of the calendar.
    fn day_second(&self) -> (r: u64)
        ensures
            r == self@.day_second(),
    {
        proof {
            use_type_invariant(self);
        }
        (self.secs - MIN_SECS) as u64 % 86_400
    }

    /// The nanoseconds from another point to this one.
    fn nanos_after(&self, other: &Timestamp) -> (r: i128)
        ensures
            r == self@.since(other@),
            -0x1_0000_0000_0000_0000_0000 < r < 0x1_0000_0000_0000_0000_0000,
    {
        proof {
            use_type_invariant(self);
            use_type_invariant(other);
        }
        let here: u64 = self.day_second();
        let there: u64 = other.day_second();
        let leap: i128 = if here > there && other.nanos >= 1_000_000_000 {
            1
        } else if here < there && self.nanos >= 1_000_000_000 {
            -1
        } else {
            0
        };
        (self.secs as i128 - other.secs as i128 + leap) * 1_000_000_000 + (self.nanos as i128
            - other.nanos as i128)
    }

    /// Whether less than some seconds lie between the other point and this one.
    pub fn less_than_after(&self, other: &Timestamp, secs: u32) -> (r: bool)
        ensures
            r == (self@.since(other@) < secs * 1_000_000_000),
    {
        self.nanos_after(other) < secs as i128 * 1_000_000_000
    }

    /// The whole milliseconds from another point to this one; none where this one is not later.
    pub fn millis_after(&self, other: &Timestamp) -> (r: u128)
        ensures
            r == self@.millis_since(other@),
    {
        let gone: i128 = self.nanos_after(other);
        if gone <= 0 {
            0
        } else {
            gone as u128 / 1_000_000
        }
    }

    /// The point in time some days later.
    pub fn plus_days(&self, days: i64) -> (r: Timestamp)
        requires
            0 <= days,
            self@.secs + days * 86_400 <= MAX_SECS,
        ensures
            r@ == self@.days_later(days as int),
    {
        proof {
            use_type_invariant(self);
        }
        let nanos: u32 = if days > 0 && self.nanos >= 1_000_000_000 {
            self.nanos - 1_000_000_000
        } else {
            self.nanos
        };
        Timestamp { secs: self.secs + days * 86_400, nanos }
    }

    /// The RFC 3339 text of the point in time.
    pub fn to_rfc3339(&self) -> (r: String)
        ensures
            r@ == self@.text(),
            r@.len() > 0,
    {
        proof {
            use_type_invariant(self);
        }
        rfc3339_format(self.secs, self.nanos)
    }

    /// The point in time that a text stands for. It reads back what `to_rfc3339` wrote.
    pub fn parse(text: &str) -> (r: Result<Timestamp, String>)
        ensures
            match rfc3339_parsed(text@) {
                Ok(t) => r matches Ok(v) && v@ == (TimeModel {
                    secs: t.0 as int,
                    nanos: t.1 as int,
                }),
                Err(m) => r matches Err(e) && e@ == m,
            },
            forall|t: TimeModel|
                in_calendar(t.secs, t.nanos) && t.four_digit_year() && text@ == #[trigger] t.text()
                    ==> (r matches Ok(v) && v@ == t),
    {
        match rfc3339_parse(text) {
            Ok((secs, nanos)) => Ok(Timestamp { secs, nanos }),
            Err(e) => Err(e),
        }
    }
}

} // verus!
