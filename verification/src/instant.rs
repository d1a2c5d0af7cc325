//! Points in time as plain numbers: seconds and nanoseconds since the Unix
//! epoch, together with the offset of the local clock they were read on.
//!
//! The calendar arithmetic is left to `chrono`; this module states what the
//! library relies on and keeps every value inside the range `chrono` accepts.

use vstd::prelude::*;
use vstd::string::*;

verus! {

/// Timestamp of the first instant `chrono` can represent (midnight before
/// the first of January of the year -262143, UTC).
pub const MIN_SECONDS: i64 = -8_334_601_228_800;

/// Timestamp of the last second `chrono` can represent (the end of the year
/// 262142, UTC).
pub const MAX_SECONDS: i64 = 8_210_266_876_799;

/// Number of nanoseconds in a second; the sub-second part stays below it.
pub const NANOS_PER_SECOND: u32 = 1_000_000_000;

/// Number of seconds in a day; an offset from UTC stays strictly inside it.
pub const SECONDS_PER_DAY: i32 = 86_400;

/// The triples that stand for an instant: a timestamp inside `chrono`'s
/// range, a sub-second part without leap-second encoding, and an offset
/// from UTC of less than a day.
pub open spec fn representable(seconds: int, nanos: int, offset: int) -> bool {
    &&& MIN_SECONDS <= seconds <= MAX_SECONDS
    &&& 0 <= nanos < NANOS_PER_SECOND
    &&& -SECONDS_PER_DAY < offset < SECONDS_PER_DAY
}

/// The pattern that renders the timestamp part of a composite key.
pub open spec fn key_pattern() -> Seq<char> {
    "%Y%m%dT%H%M%S"@
}

/// The pattern that renders the time of day shown in a summary.
pub open spec fn clock_pattern() -> Seq<char> {
    "%H:%M"@
}

/// What `chrono` renders for the instant `(seconds, nanos, offset)` under
/// the strftime pattern `pattern`.
pub uninterp spec fn formatted(seconds: i64, nanos: u32, offset: i32, pattern: Seq<char>) -> Seq<
    char,
>;

/// What `chrono` renders for the instant `(seconds, nanos, offset)` in
/// RFC 3339 notation.
pub uninterp spec fn rfc3339_text(seconds: i64, nanos: u32, offset: i32) -> Seq<char>;

/// The decimal digit `d` as a character.
pub open spec fn digit_char(d: int) -> char
    recommends
        0 <= d <= 9,
{
    if d == 0 {
        '0'
    } else if d == 1 {
        '1'
    } else if d == 2 {
        '2'
    } else if d == 3 {
        '3'
    } else if d == 4 {
        '4'
    } else if d == 5 {
        '5'
    } else if d == 6 {
        '6'
    } else if d == 7 {
        '7'
    } else if d == 8 {
        '8'
    } else {
        '9'
    }
}

/// Second of the local day at the instant `seconds`, read on a clock that is
/// `offset` seconds ahead of UTC.
pub open spec fn local_second_of_day(seconds: int, offset: int) -> int {
    (seconds + offset) % (SECONDS_PER_DAY as int)
}

/// The local time of day as `HH:MM`, both numbers padded to two digits.
pub open spec fn clock_text(seconds: int, offset: int) -> Seq<char> {
    let second = local_second_of_day(seconds, offset);
    let hour = second / 3600;
    let minute = (second % 3600) / 60;
    seq![
        digit_char(hour / 10),
        digit_char(hour % 10),
        ':',
        digit_char(minute / 10),
        digit_char(minute % 10),
    ]
}

/// Calls `chrono::DateTime::format` on the instant rebuilt from the three
/// numbers, with one of the two patterns this library uses.
///
/// Trusted: the text is named by [`formatted`]; for the clock pattern it is
/// claimed to be the zero-padded hour and minute of the local time of day, as
/// `chrono` documents `%H` and `%M`. The range in `requires` is the one in
/// which `chrono` builds the value without failing.
#[verifier::external_body]
fn format_with(seconds: i64, nanos: u32, offset: i32, pattern: &str) -> (text: String)
    requires
        representable(seconds as int, nanos as int, offset as int),
        pattern@ == key_pattern() || pattern@ == clock_pattern(),
    ensures
        text@ == formatted(seconds, nanos, offset, pattern@),
        pattern@ == clock_pattern() ==> text@ == clock_text(seconds as int, offset as int),
{
    let zone = chrono::FixedOffset::east_opt(offset).unwrap();
    let utc = chrono::DateTime::from_timestamp(seconds, nanos).unwrap();
    utc.with_timezone(&zone).format(pattern).to_string()
}

/// Calls `chrono::DateTime::to_rfc3339` on the instant rebuilt from the
/// three numbers.
///
/// Trusted: the text is named by [`rfc3339_text`]; nothing more is claimed.
#[verifier::external_body]
fn rfc3339_of(seconds: i64, nanos: u32, offset: i32) -> (text: String)
    requires
        representable(seconds as int, nanos as int, offset as int),
    ensures
        text@ == rfc3339_text(seconds, nanos, offset),
{
    let zone = chrono::FixedOffset::east_opt(offset).unwrap();
    let utc = chrono::DateTime::from_timestamp(seconds, nanos).unwrap();
    utc.with_timezone(&zone).to_rfc3339()
}

/// Calls `chrono::Local::now` and takes the reading apart.
///
/// Trusted: whatever the clock shows, `chrono` hands out a timestamp in its
/// own range, a sub-second part below one second and a local offset of less
/// than a day. Nothing is claimed about which instant it is.
#[verifier::external_body]
fn read_clock() -> (reading: (i64, u32, i32))
    ensures
        representable(reading.0 as int, reading.1 as int, reading.2 as int),
{
    let now = chrono::Local::now();
    (now.timestamp(), now.timestamp_subsec_nanos(), now.offset().local_minus_utc())
}

/// An instant with the offset of the clock it was read on.
#[derive(Clone, Copy, Debug, PartialEq, Eq)]
pub struct Instant {
    seconds: i64,
    nanos: u32,
    offset: i32,
}

impl Instant {
    #[verifier::type_invariant]
    spec fn in_range(self) -> bool {
        representable(self.seconds as int, self.nanos as int, self.offset as int)
    }

    /// Seconds since the Unix epoch, not counting leap seconds.
    pub closed spec fn spec_seconds(&self) -> i64 {
        self.seconds
    }

    /// Nanoseconds since the last whole second.
    pub closed spec fn spec_nanos(&self) -> u32 {
        self.nanos
    }

    /// Seconds that the local clock is ahead of UTC.
    pub closed spec fn spec_offset(&self) -> i32 {
        self.offset
    }

    /// Whether `self` lies strictly later than `other`. Offsets play no part:
    /// two readings of one moment on different clocks are equally late.
    pub open spec fn later_than(self, other: Instant) -> bool {
        self.spec_seconds() > other.spec_seconds() || (self.spec_seconds() == other.spec_seconds()
            && self.spec_nanos() > other.spec_nanos())
    }

    /// The timestamp part of a composite key for this instant: date and
    /// time of the local clock at the start of its second. Fractions of a
    /// second play no part in it.
    pub open spec fn key_stamp_text(self) -> Seq<char> {
        formatted(self.spec_seconds(), 0, self.spec_offset(), key_pattern())
    }

    /// The local time of day of this instant as `HH:MM`.
    pub open spec fn clock(self) -> Seq<char> {
        clock_text(self.spec_seconds() as int, self.spec_offset() as int)
    }

    /// This instant in RFC 3339 notation.
    pub open spec fn rfc3339(self) -> Seq<char> {
        rfc3339_text(self.spec_seconds(), self.spec_nanos(), self.spec_offset())
    }

    /// Builds an instant from its three numbers, or `None` when they do not
    /// stand for one.
    pub fn new(seconds: i64, nanos: u32, offset: i32) -> (made: Option<Instant>)
        ensures
            made is Some <==> representable(seconds as int, nanos as int, offset as int),
            made matches Some(t) ==> t.spec_seconds() == seconds && t.spec_nanos() == nanos
                && t.spec_offset() == offset,
    {
        if MIN_SECONDS <= seconds && seconds <= MAX_SECONDS && nanos < NANOS_PER_SECOND
            && -SECONDS_PER_DAY < offset && offset < SECONDS_PER_DAY {
            Some(Instant { seconds, nanos, offset })
        } else {
            None
        }
    }

    /// The current reading of the local clock. Which instant that is, only
    /// the clock knows; the reading is an instant like any other.
    pub fn now() -> (reading: Instant)
        ensures
            representable(
                reading.spec_seconds() as int,
                reading.spec_nanos() as int,
                reading.spec_offset() as int,
            ),
    {
        let (seconds, nanos, offset) = read_clock();
        Instant { seconds, nanos, offset }
    }

    /// Seconds since the Unix epoch, not counting leap seconds.
    #[verifier::when_used_as_spec(spec_seconds)]
    pub fn seconds(&self) -> (value: i64)
        ensures
            value == self.spec_seconds(),
            MIN_SECONDS <= value <= MAX_SECONDS,
    {
        proof {
            use_type_invariant(self);
        }
        self.seconds
    }

    /// Nanoseconds since the last whole second.
    #[verifier::when_used_as_spec(spec_nanos)]
    pub fn nanos(&self) -> (value: u32)
        ensures
            value == self.spec_nanos(),
            value < NANOS_PER_SECOND,
    {
        proof {
            use_type_invariant(self);
        }
        self.nanos
    }

    /// Seconds that the local clock is ahead of UTC.
    #[verifier::when_used_as_spec(spec_offset)]
    pub fn offset(&self) -> (value: i32)
        ensures
            value == self.spec_offset(),
            -SECONDS_PER_DAY < value < SECONDS_PER_DAY,
    {
        proof {
            use_type_invariant(self);
        }
        self.offset
    }

    /// Strict comparison of two instants: `true` exactly when `self` is later.
    pub fn is_after(&self, other: &Instant) -> (later: bool)
        ensures
            later == self.later_than(*other),
    {
        self.seconds > other.seconds || (self.seconds == other.seconds && self.nanos
            > other.nanos)
    }

    /// Renders the timestamp part of a composite key: date and time of the
    /// local clock down to the second, with the fraction of the second cut
    /// off.
    pub fn key_stamp(&self) -> (text: String)
        ensures
            text@ == self.key_stamp_text(),
    {
        proof {
            use_type_invariant(self);
        }
        format_with(self.seconds, 0, self.offset, "%Y%m%dT%H%M%S")
    }

    /// Renders the local time of day as `HH:MM`.
    pub fn clock_string(&self) -> (text: String)
        ensures
            text@ == self.clock(),
            text@.len() == 5,
    {
        proof {
            use_type_invariant(self);
        }
        format_with(self.seconds, 0, self.offset, "%H:%M")
    }

    /// Renders the instant in RFC 3339 notation.
    pub fn to_rfc3339(&self) -> (text: String)
        ensures
            text@ == self.rfc3339(),
    {
        proof {
            use_type_invariant(self);
        }
        rfc3339_of(self.seconds, self.nanos, self.offset)
    }
}

} // verus!
