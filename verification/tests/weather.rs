use wevebot::timestamp::{parse_forecast_time, parse_log_time, Timestamp};
use wevebot::weather::{
    decimal_text, direction_to_text, is_known_weather_code, place_request, reply_text,
    signed_decimal_text, weather_code_to_text, weather_to_text, WeatherLookup, WeatherReport,
};

fn report() -> WeatherReport {
    WeatherReport {
        place_name: "Helsinki, Finland".to_string(),
        weather_code: 61,
        temperature: "-3.5".to_string(),
        relative_humidity: 87,
        wind_direction: 200,
        wind_speed: "4".to_string(),
        wind_gusts: "9".to_string(),
        minutes_ago: 12,
    }
}

#[test]
fn weather_codes() {
    assert_eq!(weather_code_to_text(0), "clear");
    assert_eq!(weather_code_to_text(48), "depositing rime fog");
    assert_eq!(weather_code_to_text(95), "Thunderstorm");
    assert_eq!(weather_code_to_text(99), "thunderstorm with heavy hail");
    assert!(is_known_weather_code(3));
    assert!(!is_known_weather_code(4));
    assert!(!is_known_weather_code(100));
}

#[test]
fn directions() {
    let expected = [
        (0, "N"), (22, "N"), (23, "NE"), (67, "NE"), (68, "E"), (112, "E"), (113, "SE"),
        (157, "SE"), (158, "S"), (202, "S"), (203, "SW"), (247, "SW"), (248, "W"), (292, "W"),
        (293, "NW"), (337, "NW"), (338, "N"), (360, "N"),
    ];
    for (d, name) in expected {
        assert_eq!(direction_to_text(d), name, "{d}");
    }
}

#[test]
fn decimals() {
    assert_eq!(decimal_text(0), "0");
    assert_eq!(decimal_text(120), "120");
    assert_eq!(decimal_text(u64::MAX), u64::MAX.to_string());
    assert_eq!(signed_decimal_text(-7), "-7");
    assert_eq!(signed_decimal_text(i64::MIN), i64::MIN.to_string());
    assert_eq!(signed_decimal_text(42), "42");
}

#[test]
fn weather_text() {
    assert_eq!(
        weather_to_text(&report()),
        "weather at Helsinki, Finland: slight rain, -3.5C, 87%, S 4-9m/s (12m ago)"
    );
}

#[test]
fn replies() {
    assert_eq!(reply_text(&WeatherLookup::NoPlace), "don't know where it is");
    assert_eq!(reply_text(&WeatherLookup::Failed), "hold up your finger");
    assert_eq!(
        reply_text(&WeatherLookup::Found(report())),
        "weather at Helsinki, Finland: slight rain, -3.5C, 87%, S 4-9m/s (12m ago)"
    );
}

#[test]
fn requests_for_weather() {
    assert_eq!(place_request("weve", "weve: Oulu"), Some("Oulu".to_string()));
    assert_eq!(place_request("weve", "weve: "), Some(String::new()));
    assert_eq!(place_request("weve", "weve:Oulu"), None);
    assert_eq!(place_request("weve", "wevebo: Oulu"), None);
    assert_eq!(place_request("weve", "hello weve: Oulu"), None);
}

#[test]
fn forecast_times() {
    assert_eq!(
        parse_forecast_time("2024-01-31T23:45").ok(),
        Some(Timestamp { year: 2024, month: 1, day: 31, hour: 23, minute: 45, second: 0, nanosecond: 0 })
    );
    assert!(parse_forecast_time("2024-02-30T10:00").is_err());
    assert!(parse_forecast_time("2024-01-31 23:45").is_err());
}

#[test]
fn log_times() {
    assert_eq!(
        parse_log_time("2024-01-31 23:45:01").ok(),
        Some(Timestamp { year: 2024, month: 1, day: 31, hour: 23, minute: 45, second: 1, nanosecond: 0 })
    );
    assert!(parse_log_time("2024-01-31T23:45:01").is_err());
}
