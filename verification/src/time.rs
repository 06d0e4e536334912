//! Instants on the UTC time line.

use chrono::{DateTime, Utc};
use vstd::prelude::*;

verus! {

/// The first second of the calendar range that `chrono` can represent.
pub const MIN_SECONDS: i64 = -8_334_601_228_800;

/// The last second of the calendar range that `chrono` can represent.
pub const MAX_SECONDS: i64 = 8_210_266_876_799;

/// An instant in UTC: whole seconds since the Unix epoch, and the nanoseconds that follow them.
///
/// During a leap second the nanoseconds run on from one thousand million to two thousand million;
/// this can only be at the last second of a minute.
#[derive(Clone, Copy, Debug)]
pub struct Timestamp {
    seconds: i64,
    nanoseconds: u32,
}

/// What a [`Timestamp`] denotes.
pub struct TimestampView {
    pub seconds: int,
    pub nanoseconds: int,
}

impl TimestampView {
    /// The instants that a [`Timestamp`] can denote.
    pub open spec fn valid(self) -> bool {
        &&& MIN_SECONDS <= self.seconds <= MAX_SECONDS
        &&& 0 <= self.nanoseconds < 2_000_000_000
        &&& self.in_leap_second() ==> self.seconds % 60 == 59
    }

    /// The instant falls into an inserted second.
    pub open spec fn in_leap_second(self) -> bool {
        self.nanoseconds >= 1_000_000_000
    }

    /// The second of the day, from 0 to 86399.
    pub open spec fn second_of_day(self) -> int {
        self.seconds % 86_400
    }

    /// `self` is later than `other`.
    pub open spec fn later_than(self, other: TimestampView) -> bool {
        self.seconds > other.seconds || (self.seconds == other.seconds && self.nanoseconds
            > other.nanoseconds)
    }

    /// A leap second between the two times of day, which the difference of the seconds misses.
    pub open spec fn leap_between(self, other: TimestampView) -> int {
        if self.second_of_day() > other.second_of_day() && other.in_leap_second() {
            1
        } else if self.second_of_day() < other.second_of_day() && self.in_leap_second() {
            -1
        } else {
            0
        }
    }

    /// The nanoseconds from `other` to `self`, negative if `self` is the earlier one.
    pub open spec fn nanoseconds_since(self, other: TimestampView) -> int {
        (self.seconds - other.seconds + self.leap_between(other)) * 1_000_000_000
            + self.nanoseconds - other.nanoseconds
    }

    /// The whole seconds from `other` to `self`, rounded towards zero.
    pub open spec fn seconds_since(self, other: TimestampView) -> int {
        let nanoseconds = self.nanoseconds_since(other);
        if nanoseconds >= 0 {
            nanoseconds / 1_000_000_000
        } else {
            -((-nanoseconds) / 1_000_000_000)
        }
    }
}

impl View for Timestamp {
    type V = TimestampView;

    closed spec fn view(&self) -> TimestampView {
        TimestampView { seconds: self.seconds as int, nanoseconds: self.nanoseconds as int }
    }
}

impl Timestamp {
    #[verifier::type_invariant]
    spec fn well_formed(self) -> bool {
        self@.valid()
    }

    /// The instant `seconds` after the Unix epoch and `nanoseconds` later, if there is one.
    pub fn new(seconds: i64, nanoseconds: u32) -> (result: Option<Timestamp>)
        ensures
            match result {
                Some(t) => t@ == (TimestampView {
                    seconds: seconds as int,
                    nanoseconds: nanoseconds as int,
                }) && t@.valid(),
                None => !(TimestampView {
                    seconds: seconds as int,
                    nanoseconds: nanoseconds as int,
                }).valid(),
            },
            result is Some <==> -8_334_601_228_800 <= seconds <= 8_210_266_876_799 && nanoseconds
                < 2_000_000_000 && (nanoseconds < 1_000_000_000 || seconds % 60 == 59),
            result matches Some(t) ==> t@.seconds == seconds && t@.nanoseconds == nanoseconds,
    {
        if seconds < MIN_SECONDS || seconds > MAX_SECONDS || nanoseconds >= 2_000_000_000 {
            return None;
        }
        if nanoseconds >= 1_000_000_000 {
            if seconds < 0 {
                // The remainder of a negative dividend counts back from the minute.
                let back: i64 = -seconds;
                if back % 60 != 1 {
                    return None;
                }
            } else if seconds % 60 != 59 {
                return None;
            }
        }
        Some(Timestamp { seconds, nanoseconds })
    }

    /// The whole seconds since the Unix epoch.
    pub fn seconds(&self) -> (result: i64)
        ensures
            result == self@.seconds,
    {
        self.seconds
    }

    /// The nanoseconds after the whole second.
    pub fn nanoseconds(&self) -> (result: u32)
        ensures
            result == self@.nanoseconds,
    {
        self.nanoseconds
    }

    /// The present instant, from `chrono::Utc::now`.
    ///
    /// The clock decides which one it is. It is never before the epoch, where the call panics, and
    /// never in a leap second.
    #[verifier::external_body]
    pub(crate) fn now() -> (result: Timestamp)
        ensures
            result@.valid(),
            result@.seconds >= 0,
            !result@.in_leap_second(),
    {
        let now = Utc::now();
        Timestamp { seconds: now.timestamp(), nanoseconds: now.timestamp_subsec_nanos() }
    }

    /// The whole seconds from `earlier` to `later` as `chrono` counts them: the difference of two
    /// `chrono::DateTime<Utc>`, taken by `num_seconds`, which rounds towards zero.
    ///
    /// A leap second counts if it lies between the two times of day. `DateTime::from_timestamp`,
    /// which makes the two instants, takes all that are valid.
    #[verifier::external_body]
    fn chrono_seconds_between(later: Timestamp, earlier: Timestamp) -> (result: i64)
        requires
            later@.valid(),
            earlier@.valid(),
        ensures
            result == later@.seconds_since(earlier@),
    {
        let end = DateTime::<Utc>::from_timestamp(later.seconds, later.nanoseconds).unwrap();
        let start = DateTime::<Utc>::from_timestamp(earlier.seconds, earlier.nanoseconds).unwrap();
        (end - start).num_seconds()
    }

    /// The order of `chrono::DateTime<Utc>`: the later second is later, and within one second the
    /// later nanosecond. `DateTime::from_timestamp` makes the two instants.
    #[verifier::external_body]
    fn chrono_later(left: Timestamp, right: Timestamp) -> (result: bool)
        requires
            left@.valid(),
            right@.valid(),
        ensures
            result == left@.later_than(right@),
    {
        let left = DateTime::<Utc>::from_timestamp(left.seconds, left.nanoseconds).unwrap();
        let right = DateTime::<Utc>::from_timestamp(right.seconds, right.nanoseconds).unwrap();
        left > right
    }

    /// The whole seconds from `earlier` to this instant, rounded towards zero.
    pub fn seconds_since(&self, earlier: Timestamp) -> (result: i64)
        ensures
            result == self@.seconds_since(earlier@),
    {
        proof {
            use_type_invariant(self);
            use_type_invariant(&earlier);
        }
        Timestamp::chrono_seconds_between(*self, earlier)
    }

    /// This instant is later than `other`.
    pub fn later_than(&self, other: Timestamp) -> (result: bool)
        ensures
            result == self@.later_than(other@),
            result <==> self@.seconds > other@.seconds || (self@.seconds == other@.seconds
                && self@.nanoseconds > other@.nanoseconds),
    {
        proof {
            use_type_invariant(self);
            use_type_invariant(&other);
        }
        Timestamp::chrono_later(*self, other)
    }
}

} // verus!
