use jakesky::alexa::{
    forecast, inner_speakable_weather, speakable_time_range, speakable_weather,
    summarize_alerts, summarize_spoken_alerts, to_forecast, EmptyInputError,
};
use jakesky::clock::{speakable_day, speakable_timestamp, LocalTime};
use jakesky::weather::{Weather, WeatherAlert};

/// Moment `hour`:00 local time on day `day` (days since 1970-01-01), with
/// the local zone taken to be UTC.
fn at(day: i32, hour: u32) -> LocalTime {
    let seconds = hour * 3600;
    LocalTime::new(day as i64 * 86400 + seconds as i64, day, seconds).unwrap()
}

fn sample(day: i32, hour: u32, summary: &str, temp: i64, apparent: Option<i64>) -> Weather {
    Weather {
        timestamp: at(day, hour),
        summary: summary.to_string(),
        temp,
        apparent_temp: apparent,
    }
}

fn alert(event: &str, start: LocalTime, end: LocalTime) -> WeatherAlert {
    WeatherAlert {
        event: event.to_string(),
        start,
        end,
    }
}

#[test]
fn test_speakable_weather() {
    assert!(inner_speakable_weather(72, "foo").starts_with("72 and"));
    assert!(inner_speakable_weather(-72, "foo").starts_with("72 below and"));
}

#[test]
fn test_to_forecast_empty() {
    assert!(to_forecast(Vec::new(), Vec::new(), at(0, 9)).is_err());
}

#[test]
fn test_to_forecast_one_weather() -> Result<(), EmptyInputError> {
    let weather = vec![Weather::test(Some("1"))];
    let forecast = to_forecast(weather, Vec::new(), at(0, 0))?;

    assert_eq!(1, forecast.len());
    assert!(!forecast[0].contains("And"));

    Ok(())
}

#[test]
fn test_to_forecast_two_weather() -> Result<(), EmptyInputError> {
    let weather = vec![Weather::test(Some("1")), Weather::test(Some("2"))];
    let forecast = to_forecast(weather, Vec::new(), at(0, 0))?;

    assert_eq!(2, forecast.len());
    assert!(!forecast[1].contains("And"));

    Ok(())
}

#[test]
fn test_to_forecast_multiple_weather() -> Result<(), EmptyInputError> {
    let weather = vec![
        Weather::test(Some("1")),
        Weather::test(Some("2")),
        Weather::test(Some("3")),
    ];
    let forecast = to_forecast(weather, Vec::new(), at(0, 0))?;

    assert_eq!(3, forecast.len());
    assert!(!forecast[1].contains("And"));
    assert!(forecast[2].contains("And"));

    Ok(())
}

#[test]
fn weather_phrase_exact_values() {
    assert_eq!(inner_speakable_weather(72, "foo"), "72 and foo");
    assert_eq!(inner_speakable_weather(-72, "foo"), "72 below and foo");
    assert_eq!(inner_speakable_weather(-10, "cloudy"), "10 below and cloudy");
    assert_eq!(inner_speakable_weather(0, "clear"), "0 and clear");
    assert_eq!(
        inner_speakable_weather(i64::MIN, "odd"),
        "9223372036854775808 below and odd"
    );
}

#[test]
fn apparent_temperature_is_preferred() {
    let w = sample(0, 9, "Windy", 40, Some(31));
    assert_eq!(speakable_weather(&w), "31 and Windy");
    let w = sample(0, 9, "Windy", 40, None);
    assert_eq!(speakable_weather(&w), "40 and Windy");
}

#[test]
fn clock_phrases() {
    assert_eq!(speakable_timestamp(&at(0, 0)), "midnight");
    assert_eq!(speakable_timestamp(&at(0, 12)), "noon");
    assert_eq!(speakable_timestamp(&at(0, 8)), "8 AM");
    assert_eq!(speakable_timestamp(&at(0, 18)), "6 PM");
    assert_eq!(speakable_timestamp(&at(0, 1)), "1 AM");
    assert_eq!(speakable_timestamp(&at(0, 11)), "11 AM");
    assert_eq!(speakable_timestamp(&at(0, 13)), "1 PM");
    assert_eq!(speakable_timestamp(&at(0, 23)), "11 PM");
}

#[test]
fn clock_phrase_ignores_minutes() {
    let t = LocalTime::new(8 * 3600 + 59 * 60, 0, 8 * 3600 + 59 * 60).unwrap();
    assert_eq!(speakable_timestamp(&t), "8 AM");
}

#[test]
fn local_time_rejects_a_second_beyond_the_day() {
    assert!(LocalTime::new(0, 0, 86400).is_none());
    assert!(LocalTime::new(0, 0, 86399).is_some());
}

#[test]
fn day_phrases() {
    // Day 4 is Monday 1970-01-05.
    let now = at(4, 9);
    assert_eq!(speakable_day(&now, &at(4, 20)), "today");
    assert_eq!(speakable_day(&now, &at(5, 1)), "tomorrow");
    assert_eq!(speakable_day(&now, &at(3, 1)), "yesterday");
    assert_eq!(speakable_day(&now, &at(6, 1)), "Wednesday");
    assert_eq!(speakable_day(&now, &at(11, 1)), "Monday");
    assert_eq!(speakable_day(&now, &at(1, 1)), "Friday");
    assert_eq!(speakable_day(&at(0, 0), &at(-2, 0)), "Tuesday");
}

#[test]
fn all_day_when_nothing_changes() {
    let w = sample(0, 9, "Sunny", 70, None);
    let weather = vec![w.clone(), w.clone(), w];
    let alerts = vec![alert("Heat Advisory", at(0, 12), at(0, 18))];
    let forecast = to_forecast(weather, alerts, at(0, 9)).unwrap();
    assert_eq!(forecast, vec!["All day, it will be 70 and Sunny.".to_string()]);
}

#[test]
fn two_identical_samples_are_all_day() {
    let weather = vec![Weather::test(None), Weather::test(None)];
    let text = forecast(weather, Vec::new(), at(0, 0)).unwrap();
    assert_eq!(text, "All day, it will be 72 and sunny.");
}

#[test]
fn one_sample_is_not_all_day() {
    let text = forecast(vec![Weather::test(None)], Vec::new(), at(0, 0)).unwrap();
    assert_eq!(text, "It's currently 72 and sunny.");
}

#[test]
fn empty_forecast_is_an_error() {
    assert_eq!(forecast(Vec::new(), Vec::new(), at(0, 0)), Err(EmptyInputError));
}

#[test]
fn full_forecast_text() {
    let weather = vec![
        sample(0, 7, "Cloudy", 50, Some(48)),
        sample(0, 12, "Sunny", 61, None),
        sample(0, 18, "light rain", -3, None),
    ];
    let text = forecast(weather, Vec::new(), at(0, 7)).unwrap();
    assert_eq!(
        text,
        "It's currently 48 and Cloudy. At noon, it will be 61 and Sunny. \
         And at 6 PM it will be 3 below and light rain."
    );
}

#[test]
fn two_samples_lead_with_at() {
    let weather = vec![sample(0, 7, "Cloudy", 50, None), sample(0, 8, "Sunny", 55, None)];
    let forecast = to_forecast(weather, Vec::new(), at(0, 7)).unwrap();
    assert_eq!(
        forecast,
        vec![
            "It's currently 50 and Cloudy.".to_string(),
            "At 8 AM it will be 55 and Sunny.".to_string()
        ]
    );
}

#[test]
fn forecast_appends_alert_sentence() {
    let weather = vec![sample(0, 7, "Cloudy", 50, None), sample(0, 12, "Snow", 30, None)];
    let alerts = vec![alert("Winter Storm Warning", at(0, 14), at(0, 22))];
    let text = forecast(weather, alerts, at(0, 7)).unwrap();
    assert_eq!(
        text,
        "It's currently 50 and Cloudy. At noon it will be 30 and Snow. \
         There is a winter storm warning from 2 PM through 10 PM today."
    );
}

#[test]
fn one_alert_summary() {
    let now = at(0, 9);
    let alerts = vec![alert("Winter Storm Warning", at(0, 12), at(0, 20))];
    let summary = summarize_alerts(&alerts, &now);
    assert!(summary.starts_with("There is a "));
    assert!(summary.contains("winter storm warning"));
    assert_eq!(summary, "There is a winter storm warning from noon through 8 PM today.");
}

#[test]
fn three_alerts_summary() {
    let now = at(0, 9);
    let alerts = vec![
        alert("Winter Storm Warning", at(0, 12), at(1, 6)),
        alert("Wind Advisory", at(0, 6), at(0, 18)),
        alert("Flood Watch", at(1, 0), at(1, 12)),
    ];
    let summary = summarize_alerts(&alerts, &now);
    assert!(summary.contains("winter storm warning"));
    assert!(summary.contains("wind advisory"));
    assert!(!summary.contains("flood watch"));
    assert!(summary.ends_with("And 1 more alert."));
    assert_eq!(
        summary,
        "There is a winter storm warning from noon today through 6 AM tomorrow. \
         And a wind advisory until 6 PM today. And 1 more alert."
    );
}

#[test]
fn four_alerts_summary_is_plural() {
    let now = at(0, 9);
    let a = alert("Fog", at(0, 10), at(0, 11));
    let alerts = vec![a.clone(), a.clone(), a.clone(), a];
    let summary = summarize_alerts(&alerts, &now);
    assert!(summary.ends_with(". And 2 more alerts."));
}

#[test]
fn two_alerts_summary() {
    let now = at(0, 9);
    let alerts = vec![
        alert("Fog", at(0, 10), at(0, 11)),
        alert("Frost", at(0, 23), at(0, 23)),
    ];
    assert_eq!(
        summarize_alerts(&alerts, &now),
        "There is a fog from 10 AM through 11 AM today. And a frost from 11 PM through 11 PM today."
    );
}

#[test]
fn summary_with_given_event_names() {
    let now = at(0, 9);
    let alerts = vec![alert("Fog", at(0, 10), at(0, 11))];
    let events = vec!["thick fog".to_string()];
    assert_eq!(
        summarize_spoken_alerts(&alerts, &events, &now),
        "There is a thick fog from 10 AM through 11 AM today."
    );
}

#[test]
fn alert_in_progress_range() {
    let now = at(0, 9);
    let a = alert("Fog", at(-1, 20), at(0, 13));
    let range = speakable_time_range(&a, &now);
    assert!(range.starts_with("until"));
    assert!(!range.contains("from"));
    assert!(!range.contains("yesterday"));
    assert_eq!(range, "until 1 PM today");
}

#[test]
fn alert_same_day_range() {
    let now = at(0, 9);
    let a = alert("Fog", at(1, 6), at(1, 10));
    let range = speakable_time_range(&a, &now);
    assert_eq!(range, "from 6 AM through 10 AM tomorrow");
    assert_eq!(range.matches("tomorrow").count(), 1);
}

#[test]
fn alert_two_day_range() {
    let now = at(0, 9);
    let a = alert("Fog", at(0, 22), at(1, 10));
    assert_eq!(
        speakable_time_range(&a, &now),
        "from 10 PM today through 10 AM tomorrow"
    );
    let later = alert("Fog", at(2, 0), at(6, 12));
    assert_eq!(
        speakable_time_range(&later, &now),
        "from midnight Saturday through noon Wednesday"
    );
}

#[test]
fn alert_starting_now_is_not_in_progress() {
    let now = at(0, 9);
    let a = alert("Fog", now, at(0, 11));
    assert_eq!(speakable_time_range(&a, &now), "from 9 AM through 11 AM today");
}
