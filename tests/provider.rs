use jakesky::provider::{
    cache_file_name, normalize_dark_sky, normalize_open_weather, normalize_weather,
    sanitize_filename, ApiKey, ApiKeyError, UnknownProvider, WeatherProvider,
};
use std::str::FromStr;

#[test]
fn api_key_accepts_long_keys() {
    let key = ApiKey::new("abcdefgh".to_string()).unwrap();
    assert_eq!(key.as_str(), "abcdefgh");
}

#[test]
fn api_key_rejects_blank_keys() {
    assert_eq!(ApiKey::new(String::new()).err(), Some(ApiKeyError::Empty));
    assert_eq!(ApiKey::new(" \t\n ".to_string()).err(), Some(ApiKeyError::Empty));
    assert_eq!(
        ApiKey::new("\u{3000}\u{2003}".to_string()).err(),
        Some(ApiKeyError::Empty)
    );
}

#[test]
fn api_key_rejects_short_keys() {
    assert_eq!(ApiKey::new("short".to_string()).err(), Some(ApiKeyError::TooShort));
    assert_eq!(ApiKey::new("  abcd  ".to_string()).err(), None);
    // Seven characters but nine bytes.
    assert!(ApiKey::new("abcdeéé".to_string()).is_ok());
}

#[test]
fn provider_ids() {
    assert_eq!(WeatherProvider::AccuWeather.id(), "accuweather");
    assert_eq!(WeatherProvider::OpenWeather.id(), "openweather");
}

#[test]
fn provider_from_name_ignores_ascii_case() {
    assert_eq!(WeatherProvider::from_name("AccuWeather"), Ok(WeatherProvider::AccuWeather));
    assert_eq!(WeatherProvider::from_name("openweather"), Ok(WeatherProvider::OpenWeather));
    assert_eq!(WeatherProvider::from_str("OPENWEATHER"), Ok(WeatherProvider::OpenWeather));
    assert_eq!(WeatherProvider::from_name("invalid-provider"), Err(UnknownProvider));
    assert_eq!(WeatherProvider::from_name("accuweather "), Err(UnknownProvider));
}

#[test]
fn filenames_are_sanitized() {
    assert_eq!(sanitize_filename("40.7128_-74.006"), "40d7128_n74d006");
    assert_eq!(sanitize_filename("a/b\\c:d*e?f\"g<h>i|j k"), "a_b_c_d_e_f_g_h_i_j_k");
    assert_eq!(sanitize_filename("Zürich"), "Zürich");
    assert_eq!(sanitize_filename(""), "");
}

#[test]
fn cache_file_names() {
    assert_eq!(
        cache_file_name(&WeatherProvider::OpenWeather, "20240131", "40.7_-74.0"),
        "openweather-20240131-40d7_n74d0.json"
    );
}

#[test]
fn accu_weather_abbreviations_are_spelled_out() {
    assert_eq!(
        normalize_weather("Mostly cloudy w/ t-storms"),
        "Mostly cloudy with thunderstorms"
    );
    assert_eq!(normalize_weather("Sunny"), "Sunny");
    assert_eq!(normalize_weather("w/w/"), "withwith");
}

#[test]
fn open_weather_clouds_become_cloudy() {
    assert_eq!(normalize_open_weather("Clouds"), "Cloudy");
    assert_eq!(normalize_open_weather("clouds"), "Cloudy");
    assert_eq!(normalize_open_weather("Rain"), "Rain");
}

#[test]
fn dark_sky_drizzle_becomes_drizzling() {
    assert_eq!(normalize_dark_sky("Drizzle"), "Drizzling");
    assert_eq!(normalize_dark_sky("DRIZZLE"), "Drizzling");
    assert_eq!(normalize_dark_sky("Light Drizzle"), "Light Drizzle");
}
