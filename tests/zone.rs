use chrono_tz::Tz;
use jakesky::alexa::forecast;
use jakesky::weather::select_weather;
use jakesky::zone::{
    forecast_in_zone, local_time_in, open_weather_condition, Advisory, Observation, ReportError,
    MAX_EPOCH_SECONDS,
};

/// 2021-04-13T12:30:40Z, 7:30 in the morning in Chicago.
const MORNING: i64 = 1618317040;

fn observation(epoch_seconds: i64, summary: &str, temp: i64) -> Observation {
    Observation {
        epoch_seconds,
        summary: summary.to_string(),
        temp,
        apparent_temp: None,
    }
}

#[test]
fn moments_are_read_in_the_zone() {
    let t = local_time_in(&Tz::America__Chicago, MORNING).unwrap();
    assert_eq!(t.epoch_seconds(), MORNING);
    assert_eq!(t.day(), 18730);
    assert_eq!(t.hour(), 7);
    let t = local_time_in(&Tz::UTC, MORNING).unwrap();
    assert_eq!(t.hour(), 12);
    let t = local_time_in(&Tz::Asia__Tokyo, MORNING).unwrap();
    assert_eq!(t.hour(), 21);
}

#[test]
fn moments_far_from_the_epoch_are_refused() {
    assert!(local_time_in(&Tz::UTC, MAX_EPOCH_SECONDS + 1).is_none());
    assert!(local_time_in(&Tz::UTC, -MAX_EPOCH_SECONDS - 1).is_none());
    assert!(local_time_in(&Tz::UTC, i64::MAX).is_none());
    assert!(local_time_in(&Tz::UTC, MAX_EPOCH_SECONDS).is_some());
}

#[test]
fn report_is_placed_in_its_zone() {
    let current = observation(MORNING, "Clear", 50);
    let hourly = vec![
        observation(MORNING + 1800, "Clear", 51),
        observation(MORNING + 1800 + 4 * 3600, "Cloudy", 60),
    ];
    let alerts = vec![Advisory {
        event: "Wind Advisory".to_string(),
        start: MORNING - 3600,
        end: MORNING + 6 * 3600,
    }];
    let f = forecast_in_zone("America/Chicago", current, hourly, alerts).unwrap();
    assert_eq!(f.current.timestamp.hour(), 7);
    assert_eq!(f.current.summary, "Clear");
    assert_eq!(f.upcoming.len(), 2);
    assert_eq!(f.upcoming[0].timestamp.hour(), 8);
    assert_eq!(f.upcoming[1].timestamp.hour(), 12);
    assert_eq!(f.upcoming[1].temp, 60);
    assert_eq!(f.alerts[0].event, "Wind Advisory");
    assert_eq!(f.alerts[0].end.hour(), 13);
}

#[test]
fn unknown_zone_is_refused() {
    let r = forecast_in_zone("Mars/Olympus_Mons", observation(MORNING, "Clear", 1), vec![], vec![]);
    assert_eq!(r.err(), Some(ReportError::UnknownZone));
}

#[test]
fn out_of_range_moment_is_refused() {
    let r = forecast_in_zone(
        "Europe/Paris",
        observation(MORNING, "Clear", 1),
        vec![observation(i64::MIN, "Clear", 1)],
        vec![],
    );
    assert_eq!(r.err(), Some(ReportError::OutOfRange));
}

#[test]
fn open_weather_needs_one_condition() {
    assert_eq!(open_weather_condition(&vec![]), Err(ReportError::ConditionCount));
    assert_eq!(
        open_weather_condition(&vec!["Rain".to_string(), "Mist".to_string()]),
        Err(ReportError::ConditionCount)
    );
    assert_eq!(open_weather_condition(&vec!["Clouds".to_string()]), Ok("Cloudy".to_string()));
}

#[test]
fn report_to_spoken_forecast() {
    let current = observation(MORNING, "Clear", 50);
    let hourly = (1..24)
        .map(|h| observation(MORNING - 1800 + h * 3600, "Cloudy", 50 + h))
        .collect();
    let alerts = vec![Advisory {
        event: "Wind Advisory".to_string(),
        start: MORNING - 3600,
        end: MORNING + 6 * 3600,
    }];
    let f = forecast_in_zone("America/Chicago", current, hourly, alerts).unwrap();
    let now = f.current.timestamp;
    let alerts = f.alerts.clone();
    let selected = select_weather(f, &now);
    assert_eq!(selected.len(), 3);
    let text = forecast(selected, alerts, now).unwrap();
    assert_eq!(
        text,
        "It's currently 50 and Clear. At noon, it will be 55 and Cloudy. \
         And at 6 PM it will be 61 and Cloudy. \
         There is a wind advisory until 1 PM today."
    );
}
