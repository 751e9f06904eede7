//! A moment in the forecast location's own time zone, and how a moment and
//! a day are said aloud.
use vstd::prelude::*;

use crate::text::{append_decimal, avoids, decimal, lemma_avoids_add, lemma_decimal_digits};

verus! {

/// Seconds in a calendar day.
pub const SECONDS_PER_DAY: u32 = 86400;

/// A moment as the forecast location sees it.
///
/// `epoch_seconds` orders moments (seconds since 1970-01-01T00:00:00Z);
/// `day` is the local calendar date as a count of days since 1970-01-01, and
/// `seconds_of_day` the local wall-clock time since that date's midnight.
#[derive(Clone, Copy, Debug, PartialEq, Eq, Structural)]
pub struct LocalTime {
    epoch_seconds: i64,
    day: i32,
    seconds_of_day: u32,
}

impl LocalTime {
    #[verifier::type_invariant]
    spec fn inv(&self) -> bool {
        self.seconds_of_day < SECONDS_PER_DAY
    }

    /// The moment, in seconds since the Unix epoch.
    pub closed spec fn instant(&self) -> int {
        self.epoch_seconds as int
    }

    /// The local calendar date, in days since 1970-01-01.
    pub closed spec fn date(&self) -> int {
        self.day as int
    }

    /// The local hour of the day, 0 to 23.
    pub closed spec fn hour_of_day(&self) -> nat {
        (self.seconds_of_day / 3600) as nat
    }

    /// Builds a moment; `None` when `seconds_of_day` is not within one day.
    pub fn new(epoch_seconds: i64, day: i32, seconds_of_day: u32) -> (r: Option<LocalTime>)
        ensures
            seconds_of_day < SECONDS_PER_DAY <==> r is Some,
            r is Some ==> r->0.instant() == epoch_seconds as int && r->0.date() == day as int
                && r->0.hour_of_day() == seconds_of_day as nat / 3600,
    {
        if seconds_of_day < SECONDS_PER_DAY {
            Some(LocalTime { epoch_seconds, day, seconds_of_day })
        } else {
            None
        }
    }

    /// Midnight at the start of 1970-01-01, read in UTC.
    pub fn unix_epoch() -> (r: LocalTime)
        ensures
            r.instant() == 0 && r.date() == 0 && r.hour_of_day() == 0,
    {
        LocalTime { epoch_seconds: 0, day: 0, seconds_of_day: 0 }
    }

    /// The moment, in seconds since the Unix epoch.
    pub fn epoch_seconds(&self) -> (r: i64)
        ensures
            r as int == self.instant(),
    {
        self.epoch_seconds
    }

    /// The local calendar date, in days since 1970-01-01.
    pub fn day(&self) -> (r: i32)
        ensures
            r as int == self.date(),
    {
        self.day
    }

    /// The local hour of the day.
    pub fn hour(&self) -> (r: u32)
        ensures
            r as nat == self.hour_of_day(),
            r < 24,
    {
        proof {
            use_type_invariant(self);
        }
        self.seconds_of_day / 3600
    }

    /// Whether this moment falls on a Saturday or a Sunday.
    pub fn is_weekend(&self) -> (r: bool)
        ensures
            r == (weekday_index(self.date()) >= 5),
    {
        let w = weekday_of(self.day);
        w >= 5
    }
}

/// The day of the week of a date counted from 1970-01-01 (a Thursday):
/// 0 is Monday, 6 is Sunday.
pub open spec fn weekday_index(day: int) -> int {
    (day + 3) % 7
}

/// The weekday of a date, computed without overflow.
pub fn weekday_of(day: i32) -> (r: u32)
    ensures
        r as int == weekday_index(day as int),
        r < 7,
{
    let shifted: i64 = day as i64 + 3;
    let m = shifted.checked_rem_euclid(7);
    match m {
        Some(v) => v as u32,
        None => 0,
    }
}

/// The English name of a weekday index (0 is Monday).
pub open spec fn weekday_name(w: int) -> Seq<char> {
    if w == 0 {
        "Monday"@
    } else if w == 1 {
        "Tuesday"@
    } else if w == 2 {
        "Wednesday"@
    } else if w == 3 {
        "Thursday"@
    } else if w == 4 {
        "Friday"@
    } else if w == 5 {
        "Saturday"@
    } else {
        "Sunday"@
    }
}

/// How an hour of the day is said: midnight, noon, or a twelve-hour clock
/// reading followed by a space and "AM" or "PM".
pub open spec fn clock_phrase(hour: nat) -> Seq<char> {
    if hour == 0 {
        "midnight"@
    } else if hour == 12 {
        "noon"@
    } else if hour < 12 {
        decimal(hour) + " AM"@
    } else {
        decimal((hour - 12) as nat) + " PM"@
    }
}

/// How the date `day` is said to someone whose today is `today`.
pub open spec fn day_phrase(today: int, day: int) -> Seq<char> {
    if day == today {
        "today"@
    } else if day == today + 1 {
        "tomorrow"@
    } else if day == today - 1 {
        "yesterday"@
    } else {
        weekday_name(weekday_index(day))
    }
}

/// Appends the clock phrase of `hour` (below 24) to `s`.
pub fn append_clock(s: &mut String, hour: u32)
    requires
        hour < 24,
    ensures
        final(s)@ == old(s)@ + clock_phrase(hour as nat),
{
    let ghost before = s@;
    if hour == 0 {
        s.append("midnight");
    } else if hour == 12 {
        s.append("noon");
    } else if hour < 12 {
        append_decimal(s, hour as u64);
        s.append(" AM");
    } else {
        append_decimal(s, (hour - 12) as u64);
        s.append(" PM");
    }
    assert(s@ =~= before + clock_phrase(hour as nat));
}

/// Appends the relative-day phrase of `day` seen from `today` to `s`.
pub fn append_day(s: &mut String, today: i32, day: i32)
    ensures
        final(s)@ == old(s)@ + day_phrase(today as int, day as int),
{
    let ghost before = s@;
    let diff: i64 = day as i64 - today as i64;
    if diff == 0 {
        s.append("today");
    } else if diff == 1 {
        s.append("tomorrow");
    } else if diff == -1 {
        s.append("yesterday");
    } else {
        let w = weekday_of(day);
        if w == 0 {
            s.append("Monday");
        } else if w == 1 {
            s.append("Tuesday");
        } else if w == 2 {
            s.append("Wednesday");
        } else if w == 3 {
            s.append("Thursday");
        } else if w == 4 {
            s.append("Friday");
        } else if w == 5 {
            s.append("Saturday");
        } else {
            s.append("Sunday");
        }
    }
    assert(s@ =~= before + day_phrase(today as int, day as int));
}

/// How a moment's hour is said: "midnight", "noon", "8 AM", "6 PM".
pub fn speakable_timestamp(timestamp: &LocalTime) -> (r: String)
    ensures
        r@ == clock_phrase(timestamp.hour_of_day()),
{
    let mut s = String::new();
    append_clock(&mut s, timestamp.hour());
    assert(s@ =~= clock_phrase(timestamp.hour_of_day()));
    s
}

/// How the day of `timestamp` is said relative to the day of `now`:
/// "today", "tomorrow", "yesterday", or the weekday's name.
pub fn speakable_day(now: &LocalTime, timestamp: &LocalTime) -> (r: String)
    ensures
        r@ == day_phrase(now.date(), timestamp.date()),
{
    let mut s = String::new();
    append_day(&mut s, now.day(), timestamp.day());
    assert(s@ =~= day_phrase(now.date(), timestamp.date()));
    s
}

/// No clock phrase holds an `f`, a `w` or a `y`.
pub proof fn lemma_clock_letters(hour: nat)
    ensures
        avoids(clock_phrase(hour), 'f'),
        avoids(clock_phrase(hour), 'w'),
        avoids(clock_phrase(hour), 'y'),
{
    reveal_strlit("midnight");
    reveal_strlit("noon");
    reveal_strlit(" AM");
    reveal_strlit(" PM");
    let n: nat = if hour < 12 {
        hour
    } else {
        (hour - 12) as nat
    };
    lemma_decimal_digits(n);
    lemma_avoids_add(decimal(n), " AM"@, 'f');
    lemma_avoids_add(decimal(n), " AM"@, 'w');
    lemma_avoids_add(decimal(n), " AM"@, 'y');
    lemma_avoids_add(decimal(n), " PM"@, 'f');
    lemma_avoids_add(decimal(n), " PM"@, 'w');
    lemma_avoids_add(decimal(n), " PM"@, 'y');
}

/// Every relative-day phrase holds a `y` or a `w`.
pub proof fn lemma_day_letters(today: int, day: int)
    ensures
        exists|j: int|
            0 <= j < day_phrase(today, day).len() && (#[trigger] day_phrase(today, day)[j] == 'y'
                || day_phrase(today, day)[j] == 'w'),
{
    reveal_strlit("today");
    reveal_strlit("tomorrow");
    reveal_strlit("yesterday");
    reveal_strlit("Monday");
    reveal_strlit("Tuesday");
    reveal_strlit("Wednesday");
    reveal_strlit("Thursday");
    reveal_strlit("Friday");
    reveal_strlit("Saturday");
    reveal_strlit("Sunday");
    let p = day_phrase(today, day);
    assert(p[p.len() - 1] == 'y' || p[p.len() - 1] == 'w');
}

} // verus!
