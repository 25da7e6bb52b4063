use weather_cli::api::{coordinates_from, geocode_url, weather_url};
use weather_cli::config::{Config, Coordinate};
use weather_cli::error::WeatherError;
use weather_cli::present::WeatherReport;
use weather_cli::run::{fetch_failure_message, place_for_run, plan_run, RunPlan};

#[test]
fn geocode_address_holds_zip_and_key() {
    assert_eq!(
        geocode_url("89501", "KEY"),
        "https://api.openweathermap.org/data/2.5/weather?zip=89501&appid=KEY"
    );
}

#[test]
fn weather_address_holds_all_parameters() {
    assert_eq!(
        weather_url("KEY", "39.5", "-119.8", "metric"),
        "https://api.openweathermap.org/data/2.5/weather?lat=39.5&lon=-119.8&appid=KEY&units=metric"
    );
}

#[test]
fn missing_latitude_is_reported_first() {
    match coordinates_from(None, None) {
        Err(WeatherError::FieldMissing(m)) => assert_eq!(m, "Latitude not found"),
        _ => panic!("expected a missing field"),
    }
}

#[test]
fn missing_longitude_is_reported() {
    match coordinates_from(Some(5), None) {
        Err(e) => {
            assert!(matches!(e, WeatherError::FieldMissing(_)));
            assert_eq!(e.message(), "Longitude not found");
        }
        _ => panic!("expected a missing field"),
    }
}

#[test]
fn both_angles_give_a_place() {
    let r = coordinates_from(Some(1), Some(2));
    assert!(matches!(r, Ok(c) if c == Coordinate { latitude_bits: 1, longitude_bits: 2 }));
}

#[test]
fn missing_readings_take_defaults() {
    let r = WeatherReport::from_readings(None, None, Some("80".to_string()), None, None, None);
    assert_eq!(r.city, "Unknown");
    assert_eq!(r.condition, "Unknown");
    assert_eq!(r.temperature, "0");
    assert_eq!(r.temp_max, "80");
    assert_eq!(r.temp_min, "0");
    assert_eq!(r.wind_speed, "0");
    assert_eq!(r.temperature, 0.0f64.to_string());
}

#[test]
fn run_without_key_asks_for_setup() {
    let c = Config::defaults();
    assert!(plan_run(false, &c) == RunPlan::MissingApiKey);
    assert!(plan_run(true, &c) == RunPlan::Setup);
    let mut k = Config::defaults();
    k.api_key = "k".to_string();
    assert!(plan_run(false, &k) == RunPlan::Fetch);
}

#[test]
fn zip_failure_falls_back_to_stored_place() {
    let mut c = Config::defaults();
    c.latitude_bits = 7;
    c.longitude_bits = 8;
    let (p, m) = place_for_run(&c, Some(Err(WeatherError::Parse("bad body".to_string()))));
    assert!(p == Coordinate { latitude_bits: 7, longitude_bits: 8 });
    assert_eq!(m, Some("Failed to retrieve coordinates: bad body".to_string()));
    let (q, n) = place_for_run(&c, Some(Ok(Coordinate { latitude_bits: 1, longitude_bits: 2 })));
    assert!(q == Coordinate { latitude_bits: 1, longitude_bits: 2 });
    assert_eq!(n, None);
    let (s, o) = place_for_run(&c, None);
    assert!(s == Coordinate { latitude_bits: 7, longitude_bits: 8 });
    assert_eq!(o, None);
}

#[test]
fn fetch_failure_is_described() {
    let e = WeatherError::Io("disk".to_string());
    assert_eq!(fetch_failure_message(&e), "Error fetching weather data: disk");
}
