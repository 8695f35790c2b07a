use jiff::tz::TimeZone;
use rjw_metoffice::units::{Coordinates, Metres};
use rjw_metoffice::{Daily, Forecast, ForecastError, Hourly, ThreeHourly};

fn hourly_entry(hour: usize, complete: bool) -> String {
    let optional = if complete {
        "\"maxScreenAirTemp\": 18.5, \"minScreenAirTemp\": 17.25, \"max10mWindGust\": 9.1, \
         \"totalPrecipAmount\": 0.0, \"totalSnowAmount\": 0,"
    } else {
        ""
    };
    format!(
        "{{\"time\": \"2023-07-{:02}T{:02}:00Z\", \"screenTemperature\": 18.02, {} \
         \"screenDewPointTemperature\": 12.3, \"feelsLikeTemperature\": 17.4, \
         \"windSpeed10m\": 3.25, \"windDirectionFrom10m\": 250, \"windGustSpeed10m\": 7.5, \
         \"visibility\": 24000, \"screenRelativeHumidity\": 70.12, \"mslp\": 101620, \
         \"uvIndex\": 3, \"significantWeatherCode\": {}, \"precipitationRate\": 0.0, \
         \"probOfPrecipitation\": 5}}",
        5 + (10 + hour) / 24,
        (10 + hour) % 24,
        optional,
        [0, 1, 2, 3, 5, 6, 7, 8][hour % 8],
    )
}

fn envelope(series: &str) -> String {
    format!(
        "{{\"type\": \"FeatureCollection\", \"features\": [{{\"type\": \"Feature\", \
         \"geometry\": {{\"type\": \"Point\", \"coordinates\": [-3.474, 50.727, 27.0]}}, \
         \"properties\": {{\"location\": {{\"name\": \"Exeter\"}}, \
         \"requestPointDistance\": 27.9057, \"modelRunDate\": \"2023-07-05T10:00Z\", \
         \"timeSeries\": [{}]}}}}], \"parameters\": []}}",
        series
    )
}

fn sample() -> String {
    let entries: Vec<String> = (0..49).map(|h| hourly_entry(h, h < 46)).collect();
    envelope(&entries.join(", "))
}

fn bits(x: f64) -> u64 {
    x.to_bits()
}

#[test]
pub fn no_error_from_sample() {
    let _f: Forecast<Hourly> = sample().parse().expect("Failed to parse");
}

#[test]
pub fn has_coordinates() {
    let f: Forecast<Hourly> = sample().parse().expect("Failed to parse");
    let expected: Coordinates = [bits(-3.474), bits(50.727), bits(27.0)].try_into().unwrap();
    assert_eq!(f.coordinates, expected)
}

#[test]
pub fn has_request_point_distance() {
    let f: Forecast<Hourly> = sample().parse().expect("Failed to parse");
    let expected = Metres(bits(27.9057));
    assert_eq!(f.requested_point_distance, expected)
}

#[test]
pub fn has_zoned_predictions_run_time() {
    let f: Forecast<Hourly> = sample().parse().expect("Failed to parse");
    let expected = jiff::civil::date(2023, 7, 5)
        .at(10, 0, 0, 0)
        .to_zoned(TimeZone::UTC)
        .unwrap();
    assert_eq!(f.predictions_made_at.second, expected.timestamp().as_second());
    assert_eq!(f.predictions_made_at.nanosecond, 0);
}

#[test]
fn sample_keeps_location_and_order() {
    let f: Forecast<Hourly> = sample().parse().unwrap();
    assert_eq!(f.location_name, "Exeter");
    assert_eq!(f.coordinates.longitude.as_float(), bits(-3.474));
    assert_eq!(f.coordinates.latitude.as_float(), bits(50.727));
    assert_eq!(f.coordinates.altitude, Metres(bits(27.0)));
    let first = f.predictions[0].time.second;
    for (i, p) in f.predictions.iter().enumerate() {
        assert_eq!(p.time.second, first + 3600 * i as i64);
    }
}

#[test]
fn sample_has_49_hours_with_last_three_partial() {
    let f: Forecast<Hourly> = sample().parse().unwrap();
    assert_eq!(f.predictions.len(), 49);
    for (i, p) in f.predictions.iter().enumerate() {
        let complete = i < 46;
        assert_eq!(p.temperature_maximum.is_some(), complete);
        assert_eq!(p.temperature_minimum.is_some(), complete);
        assert_eq!(p.precipitation_total.is_some(), complete);
        assert_eq!(p.snow_total.is_some(), complete);
        assert_eq!(p.wind_gust_hourly_maximum_speed.is_some(), complete);
        assert_eq!(p.temperature.0, bits(18.02));
        assert_eq!(p.pressure.0, 101620);
        assert_eq!(p.uv_index.0, 3);
        assert_eq!(p.wind_direction.0, bits(250.0));
    }
    assert_eq!(f.predictions[0].temperature_maximum.unwrap().0, bits(18.5));
}

#[test]
fn bytes_and_text_agree() {
    let text = sample();
    let a: Forecast<Hourly> = text.parse().unwrap();
    let b = Forecast::<Hourly>::from_bytes(text.as_bytes()).unwrap();
    assert_eq!(a.predictions, b.predictions);
    assert_eq!(a.coordinates, b.coordinates);
}

#[test]
fn parsing_twice_gives_the_same_forecast() {
    let text = sample();
    let a: Forecast<Hourly> = text.parse().unwrap();
    let b: Forecast<Hourly> = text.parse().unwrap();
    assert_eq!(a.predictions, b.predictions);
    assert_eq!(a.location_name, b.location_name);
    assert_eq!(a.predictions_made_at, b.predictions_made_at);
}

#[test]
fn invalid_json_is_a_serde_error() {
    let r = "{ not json".parse::<Forecast<Hourly>>();
    assert!(matches!(r, Err(ForecastError::Serde(_))));
}

#[test]
fn missing_field_is_a_serde_error() {
    let text = sample().replace("\"screenTemperature\": 18.02,", "");
    let r = text.parse::<Forecast<Hourly>>();
    assert!(matches!(r, Err(ForecastError::Serde(_))));
}

#[test]
fn empty_features_is_a_serde_error() {
    let r = "{\"features\": []}".parse::<Forecast<Hourly>>();
    assert!(matches!(r, Err(ForecastError::Serde(_))));
}

#[test]
fn out_of_range_integer_is_a_serde_error() {
    let text = sample().replace("\"uvIndex\": 3", "\"uvIndex\": 300");
    let r = text.parse::<Forecast<Hourly>>();
    assert!(matches!(r, Err(ForecastError::Serde(_))));
}

#[test]
fn bad_timestamp_is_a_serde_error() {
    let text = sample().replace("\"modelRunDate\": \"2023-07-05T10:00Z\"", "\"modelRunDate\": \"yesterday\"");
    let r = text.parse::<Forecast<Hourly>>();
    assert!(matches!(r, Err(ForecastError::Serde(_))));
}

#[test]
fn out_of_bounds_station_is_a_serde_error() {
    let text = sample().replace("[-3.474, 50.727, 27.0]", "[-3.474, 95.0, 27.0]");
    let r = text.parse::<Forecast<Hourly>>();
    assert!(matches!(r, Err(ForecastError::Serde(_))));
}

#[test]
fn unknown_code_in_series_fails_whole_forecast() {
    let mut entries: Vec<String> = (0..3).map(|h| hourly_entry(h, true)).collect();
    entries[1] = entries[1].replace("\"significantWeatherCode\": 1", "\"significantWeatherCode\": 4");
    let r = envelope(&entries.join(", ")).parse::<Forecast<Hourly>>();
    assert!(matches!(r, Err(ForecastError::UnknownWeatherCondition(4))));
}

fn three_hourly_entry() -> String {
    "{\"time\": \"2023-07-05T12:00Z\", \"maxScreenAirTemp\": 20.5, \"minScreenAirTemp\": 14.0, \
     \"feelsLikeTemp\": 19.0, \"windSpeed10m\": 2.0, \"windDirectionFrom10m\": 90, \
     \"windGustSpeed10m\": 5.0, \"max10mWindGust\": 8.0, \"visibility\": 30000, \
     \"screenRelativeHumidity\": 60, \"mslp\": 101000, \"uvIndex\": 5, \
     \"significantWeatherCode\": 7, \"totalPrecipAmount\": 0.5, \"totalSnowAmount\": 0, \
     \"probOfPrecipitation\": 10, \"probOfSnow\": 0, \"probOfHeavySnow\": 0, \"probOfRain\": 9, \
     \"probOfHeavyRain\": 1, \"probOfHail\": 0, \"probOfSferics\": 2}"
        .to_string()
}

#[test]
fn three_hourly_parses() {
    let f: Forecast<ThreeHourly> = envelope(&three_hourly_entry()).parse().unwrap();
    assert_eq!(f.predictions.len(), 1);
    let p = f.predictions[0];
    assert_eq!(p.conditions, rjw_metoffice::units::Conditions::Cloudy);
    assert_eq!(p.temperature_maximum.0, bits(20.5));
    assert_eq!(p.wind_gust_three_hourly_maximum.0, bits(8.0));
    assert_eq!(p.lightning_probability.0, bits(2.0));
    assert_eq!(p.pressure.0, 101000);
}

#[test]
fn three_hourly_requires_every_field() {
    let text = envelope(&three_hourly_entry().replace("\"probOfHail\": 0,", ""));
    let r = text.parse::<Forecast<ThreeHourly>>();
    assert!(matches!(r, Err(ForecastError::Serde(_))));
}

pub fn daily_entry(past: bool, day_code: i32, night_code: i32) -> String {
    let future = if past {
        String::new()
    } else {
        format!(
            "\"daySignificantWeatherCode\": {}, \"dayMaxFeelsLikeTemp\": 21.5, \
             \"dayProbabilityOfPrecipitation\": 10, \"dayProbabilityOfRain\": 9, \
             \"dayProbabilityOfHeavyRain\": 3, \"dayProbabilityOfSnow\": 0, \
             \"dayProbabilityOfHeavySnow\": 0, \"dayProbabilityOfHail\": 1, \
             \"dayProbabilityOfSferics\": 2, \"maxUvIndex\": 6,",
            day_code
        )
    };
    format!(
        "{{\"time\": \"2023-07-05T00:00Z\", {} \"dayMaxScreenTemperature\": 22.0, \
         \"dayUpperBoundMaxTemp\": 24.0, \"dayLowerBoundMaxTemp\": 20.0, \
         \"dayUpperBoundMaxFeelsLikeTemp\": 23.0, \"dayLowerBoundMaxFeelsLikeTemp\": 19.0, \
         \"midday10MWindSpeed\": 4.0, \"midday10MWindDirection\": 180, \"midday10MWindGust\": 8.0, \
         \"middayMslp\": 101500, \"middayRelativeHumidity\": 55, \"middayVisibility\": 20000, \
         \"nightSignificantWeatherCode\": {}, \"nightMinScreenTemperature\": 12.0, \
         \"nightUpperBoundMinTemp\": 14.0, \"nightLowerBoundMinTemp\": 10.0, \
         \"nightMinFeelsLikeTemp\": 11.0, \"nightUpperBoundMinFeelsLikeTemp\": 13.0, \
         \"nightLowerBoundMinFeelsLikeTemp\": 9.0, \"nightProbabilityOfPrecipitation\": 20, \
         \"nightProbabilityOfRain\": 19, \"nightProbabilityOfHeavyRain\": 5, \
         \"nightProbabilityOfSnow\": 0, \"nightProbabilityOfHeavySnow\": 0, \
         \"nightProbabilityOfHail\": 0, \"nightProbabilityOfSferics\": 1, \
         \"midnight10MWindSpeed\": 2.0, \"midnight10MWindDirection\": 200, \
         \"midnight10MWindGust\": 5.0, \"midnightMslp\": 101400, \
         \"midnightRelativeHumidity\": 80, \"midnightVisibility\": 15000}}",
        future, night_code
    )
}

#[test]
fn daily_series_has_past_then_future_days() {
    let series = format!("{}, {}", daily_entry(true, 0, 2), daily_entry(false, 3, 0));
    let f: Forecast<Daily> = envelope(&series).parse().unwrap();
    assert_eq!(f.predictions.len(), 2);
    assert!(matches!(f.predictions[0].day, rjw_metoffice::daily::Day::Past { .. }));
    assert!(matches!(f.predictions[1].day, rjw_metoffice::daily::Day::Future { .. }));
}

#[test]
fn daily_future_day_without_probabilities_is_a_serde_error() {
    let entry = daily_entry(false, 3, 0).replace("\"dayProbabilityOfHail\": 1,", "");
    let r = envelope(&entry).parse::<Forecast<Daily>>();
    assert!(matches!(r, Err(ForecastError::Serde(_))));
}

#[test]
fn daily_unknown_night_code_fails() {
    let r = envelope(&daily_entry(true, 0, 31)).parse::<Forecast<Daily>>();
    assert!(matches!(r, Err(ForecastError::UnknownWeatherCondition(31))));
}
