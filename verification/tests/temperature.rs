use slow_rs::temperature::{valid_sensor_temperature_celsius, MAX_SENSOR_TEMP_MILLI_C, MIN_SENSOR_TEMP_MILLI_C};
use slow_rs::text::parse_decimal_in;

#[test]
fn rejects_implausible_sensor_temperatures() {
    assert_eq!(valid_sensor_temperature_celsius(42_000), Some(42_000));
    assert_eq!(valid_sensor_temperature_celsius(150_000), Some(150_000));
    assert_eq!(valid_sensor_temperature_celsius(151_000), None);
    assert_eq!(valid_sensor_temperature_celsius(1_000_000), None);
    let nan: Vec<char> = "NaN".chars().collect();
    assert_eq!(parse_decimal_in(&nan, 0, nan.len()), None);
}

#[test]
fn sensor_range_bounds_are_inclusive() {
    assert_eq!(valid_sensor_temperature_celsius(MIN_SENSOR_TEMP_MILLI_C), Some(-50_000));
    assert_eq!(valid_sensor_temperature_celsius(MIN_SENSOR_TEMP_MILLI_C - 1), None);
    assert_eq!(valid_sensor_temperature_celsius(MAX_SENSOR_TEMP_MILLI_C + 1), None);
    assert_eq!(valid_sensor_temperature_celsius(0), Some(0));
}
