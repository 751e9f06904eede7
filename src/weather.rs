//! The forecast data handed to the library, and the rules that pick which
//! of the upcoming hours are worth speaking about.
use vstd::prelude::*;

use crate::clock::{weekday_index, LocalTime};

pub use crate::provider::{ApiKey, ApiKeyError, UnknownProvider, WeatherProvider};

verus! {

/// One weather observation at one moment.
///
/// Temperatures are whole degrees Fahrenheit; `apparent_temp`, when known,
/// is what it feels like and is preferred when speaking.
#[derive(Clone, Debug)]
pub struct Weather {
    pub timestamp: LocalTime,
    pub summary: String,
    pub temp: i64,
    pub apparent_temp: Option<i64>,
}

/// One active weather advisory and the window in which it applies.
#[derive(Clone, Debug)]
pub struct WeatherAlert {
    pub event: String,
    pub start: LocalTime,
    pub end: LocalTime,
}

/// What a provider reports: the conditions now, the hourly outlook and the
/// active alerts.
#[derive(Clone, Debug)]
pub struct WeatherForecast {
    pub current: Weather,
    pub upcoming: Vec<Weather>,
    pub alerts: Vec<WeatherAlert>,
}

impl Weather {
    /// Two observations are the same when every field agrees.
    pub open spec fn same(&self, other: &Weather) -> bool {
        &&& self.timestamp == other.timestamp
        &&& self.summary@ == other.summary@
        &&& self.temp == other.temp
        &&& self.apparent_temp == other.apparent_temp
    }

    /// The temperature that is spoken: the apparent one when known.
    pub open spec fn spoken_temp(&self) -> int {
        match self.apparent_temp {
            Some(t) => t as int,
            None => self.temp as int,
        }
    }

    /// Whether every field of `self` and `other` agrees.
    pub fn same_as(&self, other: &Weather) -> (r: bool)
        ensures
            r == self.same(other),
    {
        self.timestamp == other.timestamp && self.summary == other.summary && self.temp
            == other.temp && self.apparent_temp == other.apparent_temp
    }

    /// A mild observation at the start of 1970 with the given summary
    /// ("sunny" when none is given), for trying out the forecast.
    pub fn test(summary: Option<&str>) -> (r: Weather)
        ensures
            r.timestamp.instant() == 0 && r.timestamp.date() == 0 && r.timestamp.hour_of_day() == 0,
            summary is Some ==> r.summary@ == summary->0@,
            summary is None ==> r.summary@ == "sunny"@,
            r.temp == 72,
            r.apparent_temp is None,
    {
        let timestamp = LocalTime::unix_epoch();
        let summary = match summary {
            Some(s) => String::from_str(s),
            None => String::from_str("sunny"),
        };
        Weather { timestamp, summary, temp: 72, apparent_temp: None }
    }
}

/// The hours of the day spoken about when no list is given.
pub open spec fn default_hours() -> Seq<u32> {
    seq![8, 12, 18]
}

/// The hour added on Saturdays and Sundays when asked for.
pub const WEEKEND_HOUR: u32 = 22;

/// Whether `s` is in ascending order.
pub open spec fn ascending(s: Seq<u32>) -> bool {
    forall|i: int, j: int| 0 <= i < j < s.len() ==> s[i] <= s[j]
}

/// The hours considered before dropping those too close to `now`: the
/// given list (or the default one), plus the weekend hour when asked for
/// and `now` falls on a weekend.
pub open spec fn candidate_hours(now: LocalTime, hours: Option<Seq<u32>>, add_weekend_hour: bool) -> Seq<u32> {
    let base = match hours {
        Some(h) => h,
        None => default_hours(),
    };
    if add_weekend_hour && weekday_index(now.date()) >= 5 {
        base.push(WEEKEND_HOUR)
    } else {
        base
    }
}

/// The contents of an optional list of hours.
pub open spec fn hour_list(hours: Option<Vec<u32>>) -> Option<Seq<u32>> {
    match hours {
        Some(v) => Some(v@),
        None => None,
    }
}

/// Whether hour `h` is still far enough ahead of `now` to speak about: more
/// than one hour after the current one.
pub open spec fn far_enough(now: LocalTime, h: nat) -> bool {
    now.hour_of_day() + 1 < h
}

/// Relies on `slice::sort_unstable`: the same values, in ascending order.
#[verifier::external_body]
fn sort_hours(v: &mut Vec<u32>)
    ensures
        final(v)@.to_multiset() == old(v)@.to_multiset(),
        ascending(final(v)@),
{
    v.sort_unstable()
}

/// The hours of the day worth speaking about, seen from `current_time`, in
/// ascending order: each candidate hour (see `candidate_hours`) that is more
/// than one hour after the current one, as often as it is a candidate.
pub fn hours_of_interest(current_time: &LocalTime, hours: Option<Vec<u32>>, add_weekend_hour: bool) -> (r: Vec<u32>)
    ensures
        ascending(r@),
        forall|h: u32|
            #[trigger] r@.to_multiset().count(h) == if far_enough(*current_time, h as nat) {
                candidate_hours(*current_time, hour_list(hours), add_weekend_hour).to_multiset().count(h)
            } else {
                0
            },
{
    broadcast use vstd::seq_lib::group_to_multiset_ensures;

    let ghost given = hour_list(hours);
    let mut hours = match hours {
        Some(h) => h,
        None => vec![8, 12, 18],
    };
    if add_weekend_hour && current_time.is_weekend() {
        hours.push(WEEKEND_HOUR);
    }
    assert(hours@ =~= candidate_hours(*current_time, given, add_weekend_hour));
    let ghost candidates = hours@;
    sort_hours(&mut hours);
    let bound = current_time.hour() + 1;
    let mut n: usize = 0;
    while n < hours.len() && hours[n] <= bound
        invariant
            n <= hours.len(),
            bound as nat == current_time.hour_of_day() + 1,
            forall|j: int| 0 <= j < n ==> hours@[j] <= bound,
        decreases hours.len() - n,
    {
        n = n + 1;
    }
    let ghost sorted = hours@;
    let r = hours.split_off(n);
    proof {
        let prefix = sorted.subrange(0, n as int);
        assert(sorted =~= prefix + r@);
        vstd::seq_lib::lemma_multiset_commutative(prefix, r@);
        assert forall|h: u32| #[trigger] r@.to_multiset().count(h) == if far_enough(*current_time, h as nat) {
            candidates.to_multiset().count(h)
        } else {
            0
        } by {
            if far_enough(*current_time, h as nat) {
                assert(!prefix.contains(h));
            } else {
                assert(!r@.contains(h)) by {
                    if r@.contains(h) {
                        let k = choose|k: int| 0 <= k < r@.len() && r@[k] == h;
                        assert(sorted[n + k] == h);
                        assert(sorted[n as int] > bound);
                        assert(sorted[n as int] <= sorted[n + k]);
                    }
                }
            }
        }
    }
    r
}

/// The set of hours listed in `hours`.
pub open spec fn hour_set(hours: Seq<u32>) -> Set<nat> {
    Set::new(|h: nat| exists|k: int| 0 <= k < hours.len() && hours[k] as nat == h)
}

/// The hours spoken about by default, seen from `now`.
pub open spec fn default_checkpoints(now: LocalTime) -> Set<nat> {
    Set::new(|h: nat| (h == 8 || h == 12 || h == 18) && far_enough(now, h))
}

/// Whether every observation of `ws` falls on or before the date of `now`.
pub open spec fn within_today(now: LocalTime, ws: Seq<Weather>) -> bool {
    forall|j: int| 0 <= j < ws.len() ==> #[trigger] ws[j].timestamp.date() <= now.date()
}

/// Whether an upcoming observation is worth speaking about: it falls on the
/// date of `now`, not in the current hour, at one of `hours`.
pub open spec fn kept(now: LocalTime, hours: Set<nat>, w: Weather) -> bool {
    &&& w.timestamp.date() == now.date()
    &&& w.timestamp.hour_of_day() != now.hour_of_day()
    &&& hours.contains(w.timestamp.hour_of_day())
}

/// The upcoming observations that are kept, in order; none is kept from the
/// first one that falls after the date of `now` onwards.
pub open spec fn retained(now: LocalTime, hours: Set<nat>, ws: Seq<Weather>) -> Seq<Weather>
    decreases ws.len(),
{
    if ws.len() == 0 {
        Seq::empty()
    } else {
        let prev = retained(now, hours, ws.drop_last());
        if within_today(now, ws) && kept(now, hours, ws.last()) {
            prev.push(ws.last())
        } else {
            prev
        }
    }
}

/// Whether `hours` lists `h`.
fn contains_hour(hours: &Vec<u32>, h: u32) -> (r: bool)
    ensures
        r == hour_set(hours@).contains(h as nat),
{
    let mut i: usize = 0;
    while i < hours.len()
        invariant
            i <= hours.len(),
            forall|k: int| 0 <= k < i ==> hours@[k] != h,
        decreases hours.len() - i,
    {
        if hours[i] == h {
            return true;
        }
        i = i + 1;
    }
    false
}

/// The upcoming observations worth speaking about at the hours `hours`,
/// seen from `now`, in their order.
pub fn select_checkpoints(now: &LocalTime, upcoming: Vec<Weather>, hours: &Vec<u32>) -> (r: Vec<Weather>)
    ensures
        r@ == retained(*now, hour_set(hours@), upcoming@),
{
    let ghost all = upcoming@;
    let ghost hs = hour_set(hours@);
    let total = upcoming.len();
    let mut upcoming = upcoming;
    let mut out: Vec<Weather> = Vec::new();
    let mut past_today = false;
    let mut i: usize = 0;
    while upcoming.len() > 0
        invariant
            i + upcoming@.len() == total,
            total == all.len(),
            hs == hour_set(hours@),
            upcoming@ == all.skip(i as int),
            out@ == retained(*now, hs, all.take(i as int)),
            past_today == !within_today(*now, all.take(i as int)),
        decreases upcoming.len(),
    {
        let w = upcoming.remove(0);
        proof {
            assert(w == all[i as int]);
            assert(all.take(i + 1).drop_last() =~= all.take(i as int));
            assert(all.take(i + 1).last() == w);
            assert(upcoming@ =~= all.skip(i + 1));
        }
        if w.timestamp.day() > now.day() {
            past_today = true;
        }
        proof {
            assert(past_today == !within_today(*now, all.take(i + 1))) by {
                if !past_today {
                    assert forall|j: int| 0 <= j < i + 1 implies #[trigger] all.take(i + 1)[j].timestamp.date() <= now.date() by {
                        if j < i {
                            assert(all.take(i + 1)[j] == all.take(i as int)[j]);
                        }
                    }
                } else if w.timestamp.date() > now.date() {
                    assert(all.take(i + 1)[i as int] == w);
                } else {
                    let j = choose|j: int| 0 <= j < i && !(#[trigger] all.take(i as int)[j].timestamp.date() <= now.date());
                    assert(all.take(i + 1)[j] == all.take(i as int)[j]);
                }
            }
        }
        let ghost before = out@;
        let ghost prefix = all.take(i + 1);
        proof {
            assert(prefix.drop_last() =~= all.take(i as int));
            assert(prefix.last() == w);
        }
        let today = w.timestamp.day() == now.day();
        let hour = w.timestamp.hour();
        let other_hour = hour != now.hour();
        let listed = contains_hour(hours, hour);
        proof {
            assert(today == (w.timestamp.date() == now.date()));
            assert(other_hour == (w.timestamp.hour_of_day() != now.hour_of_day()));
            assert(listed == hs.contains(w.timestamp.hour_of_day()));
            assert((!past_today && today && other_hour && listed) == (within_today(*now, prefix) && kept(*now, hs, w)));
        }
        if !past_today && today && other_hour && listed {
            out.push(w);
        }
        proof {
            if within_today(*now, prefix) && kept(*now, hs, w) {
                assert(out@ == before.push(w));
            } else {
                assert(out@ == before);
            }
            assert(out@ == retained(*now, hs, prefix));
        }
        i = i + 1;
    }
    assert(all.take(all.len() as int) =~= all);
    out
}

/// What is spoken about from a provider's report, seen from `now`: the
/// current conditions, then the upcoming observations that fall today, not
/// in the current hour, at one of the default hours of interest.
pub fn select_weather(forecast: WeatherForecast, now: &LocalTime) -> (r: Vec<Weather>)
    ensures
        r@ == seq![forecast.current].add(retained(*now, default_checkpoints(*now), forecast.upcoming@)),
{
    broadcast use vstd::seq_lib::group_to_multiset_ensures;

    let hours = hours_of_interest(now, None, false);
    proof {
        let c = candidate_hours(*now, None, false);
        assert(c =~= seq![8u32, 12u32, 18u32]);
        assert(hour_set(hours@) =~= default_checkpoints(*now)) by {
            assert forall|h: nat| hour_set(hours@).contains(h) <==> default_checkpoints(*now).contains(h) by {
                if hour_set(hours@).contains(h) {
                    let k = choose|k: int| 0 <= k < hours@.len() && hours@[k] as nat == h;
                    let v = hours@[k];
                    assert(hours@.contains(v));
                    assert(hours@.to_multiset().count(v) > 0);
                    assert(c.to_multiset().count(v) > 0);
                    assert(c.contains(v));
                }
                if default_checkpoints(*now).contains(h) {
                    let v = h as u32;
                    assert(c[0] == 8 && c[1] == 12 && c[2] == 18);
                    assert(c.contains(v));
                    assert(hours@.to_multiset().count(v) > 0);
                    assert(hours@.contains(v));
                    let k = choose|k: int| 0 <= k < hours@.len() && hours@[k] == v;
                    assert(hours@[k] as nat == h);
                }
            }
        }
    }
    let mut selected: Vec<Weather> = Vec::new();
    selected.push(forecast.current);
    let mut rest = select_checkpoints(now, forecast.upcoming, &hours);
    selected.append(&mut rest);
    selected
}

} // verus!
