use rjw_metoffice::daily::{Day, TemperaturePrediction};
use rjw_metoffice::parse::{RawDailyForecast, RawHourlyForecast};
use rjw_metoffice::time::UtcTime;
use rjw_metoffice::units::{Celsius, Conditions, Degrees, Metres, MetresPerSecond, Pascals, Percentage, UvIndex};
use rjw_metoffice::{Daily, ForecastError, Hourly};

fn b(x: f64) -> u64 {
    x.to_bits()
}

fn raw_day(future: bool) -> RawDailyForecast {
    let some = |x: f64| if future { Some(b(x)) } else { None };
    RawDailyForecast {
        time: UtcTime { second: 1_688_515_200, nanosecond: 0 },
        day_significant_weather_code: if future { Some(3) } else { None },
        day_max_screen_temperature: b(22.0),
        day_upper_bound_max_temp: b(24.0),
        day_lower_bound_max_temp: b(20.0),
        day_max_feels_like_temp: some(21.5),
        day_upper_bound_max_feels_like_temp: b(23.0),
        day_lower_bound_max_feels_like_temp: b(19.0),
        day_probability_of_precipitation: some(10.0),
        day_probability_of_rain: some(9.0),
        day_probability_of_heavy_rain: some(3.0),
        day_probability_of_snow: some(0.5),
        day_probability_of_heavy_snow: some(0.25),
        day_probability_of_hail: some(1.0),
        day_probability_of_sferics: some(2.0),
        max_uv_index: if future { Some(6) } else { None },
        midday_10m_wind_speed: b(4.0),
        midday_10m_wind_direction: b(180.0),
        midday_10m_wind_gust: b(8.0),
        midday_mslp: 101500,
        midday_relative_humidity: b(55.0),
        midday_visibility: b(20000.0),
        night_significant_weather_code: 0,
        night_min_screen_temperature: b(12.0),
        night_upper_bound_min_temp: b(14.0),
        night_lower_bound_min_temp: b(10.0),
        night_min_feels_like_temp: b(11.0),
        night_upper_bound_min_feels_like_temp: b(13.0),
        night_lower_bound_min_feels_like_temp: b(9.0),
        night_probability_of_precipitation: b(20.0),
        night_probability_of_rain: b(19.0),
        night_probability_of_heavy_rain: b(5.0),
        night_probability_of_snow: b(0.0),
        night_probability_of_heavy_snow: b(0.0),
        night_probability_of_hail: b(0.0),
        night_probability_of_sferics: b(1.0),
        midnight_10m_wind_speed: b(2.0),
        midnight_10m_wind_direction: b(200.0),
        midnight_10m_wind_gust: b(5.0),
        midnight_mslp: 101400,
        midnight_relative_humidity: b(80.0),
        midnight_visibility: b(15000.0),
    }
}

fn prediction(m: f64, u: f64, l: f64) -> TemperaturePrediction {
    TemperaturePrediction { most_likely: Celsius(b(m)), upper_bound: Celsius(b(u)), lower_bound: Celsius(b(l)) }
}

#[test]
fn record_without_feels_like_maximum_is_a_past_day() {
    let d = Daily::try_from(raw_day(false)).unwrap();
    assert_eq!(
        d.day,
        Day::Past {
            temperature_maximum: prediction(22.0, 24.0, 20.0),
            temperature_feels_like_maximum_upper_bound: Celsius(b(23.0)),
            temperature_feels_like_maximum_lower_bound: Celsius(b(19.0)),
            wind_speed: MetresPerSecond(b(4.0)),
            wind_direction: Degrees(b(180.0)),
            wind_gust_speed: MetresPerSecond(b(8.0)),
            visibility: Metres(b(20000.0)),
            relative_humidity: Percentage(b(55.0)),
            pressure: Pascals(101500),
        }
    );
    assert_eq!(d.night.conditions, Conditions::ClearNight);
    assert_eq!(d.time, UtcTime { second: 1_688_515_200, nanosecond: 0 });
}

#[test]
fn record_with_feels_like_maximum_is_a_future_day() {
    let d = Daily::try_from(raw_day(true)).unwrap();
    assert_eq!(
        d.day,
        Day::Future {
            conditions: Conditions::PartlyCloudyDay,
            temperature_maximum: prediction(22.0, 24.0, 20.0),
            temperature_feels_like_maximum: prediction(21.5, 23.0, 19.0),
            uv_index_maximum: UvIndex(6),
            precipitation_probability: Percentage(b(10.0)),
            rain_probability: Percentage(b(9.0)),
            heavy_rain_probability: Percentage(b(3.0)),
            snow_probability: Percentage(b(0.5)),
            heavy_snow_probability: Percentage(b(0.25)),
            hail_probability: Percentage(b(1.0)),
            lightning_probability: Percentage(b(2.0)),
            wind_speed: MetresPerSecond(b(4.0)),
            wind_direction: Degrees(b(180.0)),
            wind_gust_speed: MetresPerSecond(b(8.0)),
            visibility: Metres(b(20000.0)),
            relative_humidity: Percentage(b(55.0)),
            pressure: Pascals(101500),
        }
    );
}

#[test]
fn night_converts_in_full() {
    let d = Daily::try_from(raw_day(true)).unwrap();
    let n = d.night;
    assert_eq!(n.temperature_minimum, prediction(12.0, 14.0, 10.0));
    assert_eq!(n.temperature_feels_like_minimum, prediction(11.0, 13.0, 9.0));
    assert_eq!(n.precipitation_probability, Percentage(b(20.0)));
    assert_eq!(n.rain_probability, Percentage(b(19.0)));
    assert_eq!(n.heavy_rain_probability, Percentage(b(5.0)));
    assert_eq!(n.lightning_probability, Percentage(b(1.0)));
    assert_eq!(n.wind_direction, Degrees(b(200.0)));
    assert_eq!(n.wind_gust_speed, MetresPerSecond(b(5.0)));
    assert_eq!(n.pressure, Pascals(101400));
    assert_eq!(n.visibility, Metres(b(15000.0)));
    assert_eq!(n.relative_humidity, Percentage(b(80.0)));
}

#[test]
fn future_day_missing_a_probability_is_a_schema_error() {
    let mut rf = raw_day(true);
    rf.day_probability_of_sferics = None;
    assert!(matches!(Daily::try_from(rf), Err(ForecastError::Serde(_))));
    let mut rf = raw_day(true);
    rf.max_uv_index = None;
    assert!(matches!(Daily::try_from(rf), Err(ForecastError::Serde(_))));
}

#[test]
fn unknown_day_code_is_reported_before_night_code() {
    let mut rf = raw_day(true);
    rf.day_significant_weather_code = Some(4);
    rf.night_significant_weather_code = 40;
    assert!(matches!(Daily::try_from(rf), Err(ForecastError::UnknownWeatherCondition(4))));
    rf.day_significant_weather_code = Some(1);
    assert!(matches!(Daily::try_from(rf), Err(ForecastError::UnknownWeatherCondition(40))));
}

#[test]
fn past_day_ignores_day_code() {
    let mut rf = raw_day(false);
    rf.day_significant_weather_code = Some(4);
    assert!(matches!(Daily::try_from(rf).unwrap().day, Day::Past { .. }));
}

#[test]
fn daily_conversion_is_repeatable() {
    let rf = raw_day(true);
    assert_eq!(Daily::try_from(rf).unwrap(), Daily::try_from(rf).unwrap());
    let rf = raw_day(false);
    assert_eq!(Daily::try_from(rf).unwrap(), Daily::try_from(rf).unwrap());
}

fn raw_hour(code: i8, partial: bool) -> RawHourlyForecast {
    let opt = |x: f64| if partial { None } else { Some(b(x)) };
    RawHourlyForecast {
        time: UtcTime { second: 1_688_551_200, nanosecond: 0 },
        screen_temperature: b(18.0),
        max_screen_air_temp: opt(18.5),
        min_screen_air_temp: opt(17.0),
        screen_dew_point_temperature: b(12.0),
        feels_like_temperature: b(17.0),
        wind_speed_10m: b(3.0),
        wind_direction_from_10m: b(250.0),
        wind_gust_speed_10m: b(7.0),
        max_10m_wind_gust: opt(9.0),
        visibility: b(24000.0),
        screen_relative_humidity: b(70.0),
        mslp: 101620,
        uv_index: 3,
        significant_weather_code: code,
        precipitation_rate: b(0.0),
        total_precip_amount: opt(0.0),
        total_snow_amount: opt(0.0),
        prob_of_precipitation: b(5.0),
    }
}

#[test]
fn hourly_conversion_keeps_optional_fields() {
    let h = Hourly::try_from(raw_hour(12, false)).unwrap();
    assert_eq!(h.conditions, Conditions::LightRain);
    assert_eq!(h.temperature_maximum, Some(Celsius(b(18.5))));
    assert_eq!(h.wind_gust_hourly_maximum_speed, Some(MetresPerSecond(b(9.0))));
    let h = Hourly::try_from(raw_hour(12, true)).unwrap();
    assert_eq!(h.temperature_maximum, None);
    assert_eq!(h.temperature_minimum, None);
    assert_eq!(h.precipitation_total, None);
    assert_eq!(h.snow_total, None);
    assert_eq!(h.wind_gust_hourly_maximum_speed, None);
    assert_eq!(h.temperature, Celsius(b(18.0)));
    assert_eq!(h.uv_index, UvIndex(3));
}

#[test]
fn hourly_conversion_fails_on_unknown_code() {
    assert!(matches!(
        Hourly::try_from(raw_hour(31, false)),
        Err(ForecastError::UnknownWeatherCondition(31))
    ));
}

#[test]
fn hourly_conversion_is_repeatable() {
    let rf = raw_hour(7, false);
    assert_eq!(Hourly::try_from(rf).unwrap(), Hourly::try_from(rf).unwrap());
}
