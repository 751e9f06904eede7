//! Readings reported at UTC moments, placed in the forecast location's time
//! zone.
use vstd::prelude::*;

use chrono::{NaiveDate, TimeZone, Timelike};
use chrono_tz::Tz;
use std::str::FromStr;

use crate::clock::{LocalTime, SECONDS_PER_DAY};
use crate::provider::{open_weather_summary, normalize_open_weather};
use crate::weather::{Weather, WeatherAlert, WeatherForecast};

verus! {

#[verifier::external_type_specification]
#[verifier::external_body]
pub struct ExTz(chrono_tz::Tz);

/// Whether the IANA time-zone database compiled into chrono-tz has a zone of
/// this name.
pub uninterp spec fn known_zone(name: Seq<char>) -> bool;

/// Relies on chrono-tz's `Tz::from_str`: a lookup of the name in its
/// table of zones, which fails exactly for names it does not hold.
#[verifier::external_body]
fn parse_zone(name: &str) -> (r: Option<Tz>)
    ensures
        r is Some <==> known_zone(name@),
{
    Tz::from_str(name).ok()
}

/// The farthest moment from the Unix epoch, either way, that is placed in
/// a time zone: about 253,000 years, well inside what chrono represents.
pub const MAX_EPOCH_SECONDS: i64 = 8000000000000;

/// Whether a moment lies within `MAX_EPOCH_SECONDS` of the Unix epoch.
pub open spec fn in_range(epoch_seconds: i64) -> bool {
    -MAX_EPOCH_SECONDS <= epoch_seconds <= MAX_EPOCH_SECONDS
}

/// Relies on chrono's `TimeZone::timestamp_opt`: the moment `epoch_seconds`
/// seen in `zone`, as its local date (days since 1970-01-01) and the
/// seconds since that date's midnight (`num_seconds_from_midnight`, below
/// 86400). For such moments, years -262143 to 262142 are representable, so
/// `timestamp_opt` gives a single reading (a zone maps each UTC moment to
/// one local time) and the day count stays far within `i32`. Which local
/// date and time the zone gives is not stated here. Reading the local date
/// panics within a day of the ends of chrono's range, which `requires`
/// keeps far away.
#[verifier::external_body]
fn local_reading(zone: &Tz, epoch_seconds: i64) -> (r: Option<(i64, u32)>)
    requires
        in_range(epoch_seconds),
    ensures
        match r {
            Some(reading) => reading.1 < SECONDS_PER_DAY && i32::MIN <= reading.0 <= i32::MAX,
            None => false,
        },
{
    let local = zone.timestamp_opt(epoch_seconds, 0).single()?;
    let day = local.date_naive().signed_duration_since(NaiveDate::default()).num_days();
    Some((day, local.num_seconds_from_midnight()))
}

/// Why a provider's report could not be placed in its time zone.
#[derive(Clone, Copy, Debug, PartialEq, Eq, Structural)]
pub enum ReportError {
    /// The report names a time zone that is not known.
    UnknownZone,
    /// A moment of the report cannot be represented.
    OutOfRange,
    /// An OpenWeather reading lists other than exactly one condition.
    ConditionCount,
}

/// One reading as a provider reports it: a UTC moment (seconds since the
/// Unix epoch), the condition as it is to be spoken, and temperatures in
/// whole degrees.
#[derive(Clone, Debug)]
pub struct Observation {
    pub epoch_seconds: i64,
    pub summary: String,
    pub temp: i64,
    pub apparent_temp: Option<i64>,
}

/// One advisory as a provider reports it, with UTC moments.
#[derive(Clone, Debug)]
pub struct Advisory {
    pub event: String,
    pub start: i64,
    pub end: i64,
}

/// Whether `w` is the reading `o`, placed in some time zone.
pub open spec fn placed(w: Weather, o: Observation) -> bool {
    &&& w.timestamp.instant() == o.epoch_seconds as int
    &&& w.summary@ == o.summary@
    &&& w.temp == o.temp
    &&& w.apparent_temp == o.apparent_temp
}

/// Whether `a` is the advisory `v`, placed in some time zone.
pub open spec fn placed_alert(a: WeatherAlert, v: Advisory) -> bool {
    &&& a.event@ == v.event@
    &&& a.start.instant() == v.start as int
    &&& a.end.instant() == v.end as int
}

/// The moment `epoch_seconds` seen in `zone`; `None` exactly when it lies
/// beyond `MAX_EPOCH_SECONDS` either way.
pub fn local_time_in(zone: &Tz, epoch_seconds: i64) -> (r: Option<LocalTime>)
    ensures
        r is Some <==> in_range(epoch_seconds),
        r is Some ==> r->0.instant() == epoch_seconds as int,
{
    if epoch_seconds < -MAX_EPOCH_SECONDS || epoch_seconds > MAX_EPOCH_SECONDS {
        return None;
    }
    match local_reading(zone, epoch_seconds) {
        Some((day, seconds)) => {
            if day < i32::MIN as i64 || day > i32::MAX as i64 {
                None
            } else {
                LocalTime::new(epoch_seconds, day as i32, seconds)
            }
        },
        None => None,
    }
}

/// The reading `o` placed in `zone`.
fn place(zone: &Tz, o: Observation) -> (r: Result<Weather, ReportError>)
    ensures
        r is Ok <==> in_range(o.epoch_seconds),
        r is Ok ==> placed(r->Ok_0, o),
        r is Err ==> r == Err::<Weather, ReportError>(ReportError::OutOfRange),
{
    match local_time_in(zone, o.epoch_seconds) {
        Some(timestamp) => Ok(
            Weather {
                timestamp,
                summary: o.summary,
                temp: o.temp,
                apparent_temp: o.apparent_temp,
            },
        ),
        None => Err(ReportError::OutOfRange),
    }
}

/// The advisory `v` placed in `zone`.
fn place_alert(zone: &Tz, v: Advisory) -> (r: Result<WeatherAlert, ReportError>)
    ensures
        r is Ok <==> in_range(v.start) && in_range(v.end),
        r is Ok ==> placed_alert(r->Ok_0, v),
        r is Err ==> r == Err::<WeatherAlert, ReportError>(ReportError::OutOfRange),
{
    let start = match local_time_in(zone, v.start) {
        Some(t) => t,
        None => {
            return Err(ReportError::OutOfRange);
        },
    };
    let end = match local_time_in(zone, v.end) {
        Some(t) => t,
        None => {
            return Err(ReportError::OutOfRange);
        },
    };
    Ok(WeatherAlert { event: v.event, start, end })
}

/// Whether every moment of a report lies within `MAX_EPOCH_SECONDS` of the
/// Unix epoch.
pub open spec fn report_in_range(current: Observation, hourly: Seq<Observation>, alerts: Seq<Advisory>) -> bool {
    &&& in_range(current.epoch_seconds)
    &&& forall|i: int| 0 <= i < hourly.len() ==> in_range(#[trigger] hourly[i].epoch_seconds)
    &&& forall|i: int| 0 <= i < alerts.len() ==> in_range(#[trigger] alerts[i].start)
    &&& forall|i: int| 0 <= i < alerts.len() ==> in_range(#[trigger] alerts[i].end)
}

/// A provider's report placed in the time zone named `timezone`: every
/// reading and advisory keeps its moment, text and temperatures, in order.
/// Fails with `UnknownZone` exactly when the zone is not known, else with
/// `OutOfRange` exactly when some moment lies beyond `MAX_EPOCH_SECONDS`.
pub fn forecast_in_zone(
    timezone: &str,
    current: Observation,
    hourly: Vec<Observation>,
    alerts: Vec<Advisory>,
) -> (r: Result<WeatherForecast, ReportError>)
    ensures
        r == Err::<WeatherForecast, ReportError>(ReportError::UnknownZone) <==> !known_zone(
            timezone@,
        ),
        known_zone(timezone@) && !report_in_range(current, hourly@, alerts@) <==> r
            == Err::<WeatherForecast, ReportError>(ReportError::OutOfRange),
        known_zone(timezone@) && report_in_range(current, hourly@, alerts@) <==> r is Ok,
        r is Ok ==> {
            let f = r->Ok_0;
            &&& placed(f.current, current)
            &&& f.upcoming@.len() == hourly@.len()
            &&& forall|i: int| 0 <= i < hourly@.len() ==> placed(#[trigger] f.upcoming@[i], hourly@[i])
            &&& f.alerts@.len() == alerts@.len()
            &&& forall|i: int| 0 <= i < alerts@.len() ==> placed_alert(#[trigger] f.alerts@[i], alerts@[i])
        },
{
    let zone = match parse_zone(timezone) {
        Some(z) => z,
        None => {
            return Err(ReportError::UnknownZone);
        },
    };
    let ghost first = current;
    let now_reading = match place(&zone, current) {
        Ok(w) => w,
        Err(e) => {
            return Err(e);
        },
    };
    let ghost given = hourly@;
    let mut rest = hourly;
    let mut upcoming: Vec<Weather> = Vec::new();
    while rest.len() > 0
        invariant
            known_zone(timezone@),
            in_range(first.epoch_seconds),
            forall|i: int| 0 <= i < upcoming@.len() ==> in_range(#[trigger] given[i].epoch_seconds),
            upcoming@.len() + rest@.len() == given.len(),
            rest@ == given.skip(upcoming@.len() as int),
            given == hourly@,
            first == current,
            forall|i: int| 0 <= i < upcoming@.len() ==> placed(#[trigger] upcoming@[i], given[i]),
        decreases rest.len(),
    {
        let ghost k = upcoming@.len() as int;
        let o = rest.remove(0);
        assert(o == given[k]);
        assert(rest@ =~= given.skip(k + 1));
        match place(&zone, o) {
            Ok(w) => upcoming.push(w),
            Err(e) => {
                assert(!in_range(given[k].epoch_seconds));
                assert(!report_in_range(first, given, alerts@));
                return Err(e);
            },
        }
    }
    let ghost given_alerts = alerts@;
    let mut pending = alerts;
    let mut placed_alerts: Vec<WeatherAlert> = Vec::new();
    while pending.len() > 0
        invariant
            known_zone(timezone@),
            in_range(first.epoch_seconds),
            forall|i: int| 0 <= i < given.len() ==> in_range(#[trigger] given[i].epoch_seconds),
            forall|i: int| 0 <= i < placed_alerts@.len() ==> in_range(#[trigger] given_alerts[i].start),
            forall|i: int| 0 <= i < placed_alerts@.len() ==> in_range(#[trigger] given_alerts[i].end),
            placed_alerts@.len() + pending@.len() == given_alerts.len(),
            pending@ == given_alerts.skip(placed_alerts@.len() as int),
            given == hourly@,
            given_alerts == alerts@,
            first == current,
            forall|i: int| 0 <= i < placed_alerts@.len() ==> placed_alert(#[trigger] placed_alerts@[i], given_alerts[i]),
        decreases pending.len(),
    {
        let ghost k = placed_alerts@.len() as int;
        let v = pending.remove(0);
        assert(v == given_alerts[k]);
        assert(pending@ =~= given_alerts.skip(k + 1));
        match place_alert(&zone, v) {
            Ok(a) => placed_alerts.push(a),
            Err(e) => {
                assert(!(in_range(given_alerts[k].start) && in_range(given_alerts[k].end)));
                assert(!report_in_range(first, given, given_alerts)) by {
                    if !in_range(given_alerts[k].start) {
                        assert(!in_range(given_alerts[k].start));
                    } else {
                        assert(!in_range(given_alerts[k].end));
                    }
                }
                return Err(e);
            },
        }
    }
    Ok(WeatherForecast { current: now_reading, upcoming, alerts: placed_alerts })
}

/// The condition of an OpenWeather reading, as it is spoken: its one
/// condition group, evened out; an error unless there is exactly one.
pub fn open_weather_condition(conditions: &Vec<String>) -> (r: Result<String, ReportError>)
    ensures
        conditions@.len() != 1 <==> r is Err,
        r is Err ==> r == Err::<String, ReportError>(ReportError::ConditionCount),
        r is Ok ==> r->Ok_0@ == open_weather_summary(conditions@[0]@),
{
    if conditions.len() != 1 {
        return Err(ReportError::ConditionCount);
    }
    Ok(normalize_open_weather(conditions[0].as_str()))
}

} // verus!
