//! The shape of the forecast document: one record type per time period, mirroring the
//! service's field names, and the reading of each field from JSON.
//!
//! Fields that the service leaves out for some entries are `Option`s; a field that is present
//! must have the type that the record gives it. Decimal fields hold the bit pattern of the
//! number's binary64 value.
use vstd::prelude::*;
use crate::error::ForecastError;
use crate::json::{
    as_float_bits, as_integer, as_text, get_member, is_null, json_view, member, JsonView,
};
use crate::time::{utc_time_of, UtcTime};

verus! {

/// The value of a required decimal member.
pub open spec fn decimal_member(o: JsonView, key: Seq<char>) -> Option<u64> {
    match member(o, key) {
        Some(JsonView::Number { float_bits, .. }) => Some(float_bits),
        _ => None,
    }
}

/// The value of an optional decimal member: `Some(None)` where it is missing or null, `None`
/// where it holds something other than a number.
pub open spec fn optional_decimal_member(o: JsonView, key: Seq<char>) -> Option<Option<u64>> {
    match member(o, key) {
        None => Some(None),
        Some(JsonView::Null) => Some(None),
        Some(JsonView::Number { float_bits, .. }) => Some(Some(float_bits)),
        _ => None,
    }
}

/// The value of a required integer member that must lie in `[lo, hi]`.
pub open spec fn integer_member(o: JsonView, key: Seq<char>, lo: int, hi: int) -> Option<i64> {
    match member(o, key) {
        Some(JsonView::Number { integer: Some(i), .. }) => if lo <= i <= hi {
            Some(i)
        } else {
            None
        },
        _ => None,
    }
}

/// The value of an optional integer member that must lie in `[lo, hi]` where it is present.
pub open spec fn optional_integer_member(o: JsonView, key: Seq<char>, lo: int, hi: int) -> Option<
    Option<i64>,
> {
    match member(o, key) {
        None => Some(None),
        Some(JsonView::Null) => Some(None),
        Some(JsonView::Number { integer: Some(i), .. }) => if lo <= i <= hi {
            Some(Some(i))
        } else {
            None
        },
        _ => None,
    }
}

pub open spec fn u8_member(o: JsonView, key: Seq<char>) -> Option<u8> {
    match integer_member(o, key, 0, 255) {
        Some(i) => Some(i as u8),
        None => None,
    }
}

pub open spec fn u32_member(o: JsonView, key: Seq<char>) -> Option<u32> {
    match integer_member(o, key, 0, 0xffff_ffff) {
        Some(i) => Some(i as u32),
        None => None,
    }
}

pub open spec fn i8_member(o: JsonView, key: Seq<char>) -> Option<i8> {
    match integer_member(o, key, -128, 127) {
        Some(i) => Some(i as i8),
        None => None,
    }
}

pub open spec fn optional_u8_member(o: JsonView, key: Seq<char>) -> Option<Option<u8>> {
    match optional_integer_member(o, key, 0, 255) {
        Some(Some(i)) => Some(Some(i as u8)),
        Some(None) => Some(None),
        None => None,
    }
}

pub open spec fn optional_i8_member(o: JsonView, key: Seq<char>) -> Option<Option<i8>> {
    match optional_integer_member(o, key, -128, 127) {
        Some(Some(i)) => Some(Some(i as i8)),
        Some(None) => Some(None),
        None => None,
    }
}

/// The instant that a timestamp member denotes.
pub open spec fn time_member(o: JsonView, key: Seq<char>) -> Option<UtcTime> {
    match member(o, key) {
        Some(JsonView::Text(t)) => utc_time_of(t),
        _ => None,
    }
}

/// The text of a string member.
pub open spec fn text_member(o: JsonView, key: Seq<char>) -> Option<Seq<char>> {
    match member(o, key) {
        Some(JsonView::Text(t)) => Some(t),
        _ => None,
    }
}

/// Relies on `serde::de::Error::missing_field` for `serde_json::Error`.
#[verifier::external_body]
pub(crate) fn missing_field(key: &'static str) -> serde_json::Error {
    <serde_json::Error as serde::de::Error>::missing_field(key)
}

/// Relies on `serde::de::Error::custom` for `serde_json::Error`: an error naming the field.
#[verifier::external_body]
pub(crate) fn invalid_field(key: &'static str) -> serde_json::Error {
    <serde_json::Error as serde::de::Error>::custom(format!("invalid type or value for field `{}`", key))
}

pub(crate) fn read_decimal(o: &serde_json::Value, key: &'static str) -> (r: Result<u64, ForecastError>)
    ensures
        match decimal_member(json_view(*o), key@) {
            Some(b) => r == Ok::<u64, ForecastError>(b),
            None => r matches Err(e) && e is Serde,
        },
{
    match get_member(o, key) {
        None => Err(ForecastError::Serde(missing_field(key))),
        Some(v) => match as_float_bits(v) {
            Some(b) => Ok(b),
            None => Err(ForecastError::Serde(invalid_field(key))),
        },
    }
}

fn read_optional_decimal(o: &serde_json::Value, key: &'static str) -> (r: Result<
    Option<u64>,
    ForecastError,
>)
    ensures
        match optional_decimal_member(json_view(*o), key@) {
            Some(b) => r == Ok::<Option<u64>, ForecastError>(b),
            None => r matches Err(e) && e is Serde,
        },
{
    match get_member(o, key) {
        None => Ok(None),
        Some(v) => if is_null(v) {
            Ok(None)
        } else {
            match as_float_bits(v) {
                Some(b) => Ok(Some(b)),
                None => Err(ForecastError::Serde(invalid_field(key))),
            }
        },
    }
}

fn read_integer(o: &serde_json::Value, key: &'static str, lo: i64, hi: i64) -> (r: Result<
    i64,
    ForecastError,
>)
    ensures
        match integer_member(json_view(*o), key@, lo as int, hi as int) {
            Some(i) => r == Ok::<i64, ForecastError>(i),
            None => r matches Err(e) && e is Serde,
        },
{
    match get_member(o, key) {
        None => Err(ForecastError::Serde(missing_field(key))),
        Some(v) => match as_integer(v) {
            Some(i) => if lo <= i && i <= hi {
                Ok(i)
            } else {
                Err(ForecastError::Serde(invalid_field(key)))
            },
            None => Err(ForecastError::Serde(invalid_field(key))),
        },
    }
}

fn read_optional_integer(o: &serde_json::Value, key: &'static str, lo: i64, hi: i64) -> (r: Result<
    Option<i64>,
    ForecastError,
>)
    ensures
        match optional_integer_member(json_view(*o), key@, lo as int, hi as int) {
            Some(i) => r == Ok::<Option<i64>, ForecastError>(i),
            None => r matches Err(e) && e is Serde,
        },
{
    match get_member(o, key) {
        None => Ok(None),
        Some(v) => if is_null(v) {
            Ok(None)
        } else {
            match as_integer(v) {
                Some(i) => if lo <= i && i <= hi {
                    Ok(Some(i))
                } else {
                    Err(ForecastError::Serde(invalid_field(key)))
                },
                None => Err(ForecastError::Serde(invalid_field(key))),
            }
        },
    }
}

fn read_u8(o: &serde_json::Value, key: &'static str) -> (r: Result<u8, ForecastError>)
    ensures
        match u8_member(json_view(*o), key@) {
            Some(b) => r == Ok::<u8, ForecastError>(b),
            None => r matches Err(e) && e is Serde,
        },
{
    let i = read_integer(o, key, 0, 255)?;
    Ok(i as u8)
}

fn read_u32(o: &serde_json::Value, key: &'static str) -> (r: Result<u32, ForecastError>)
    ensures
        match u32_member(json_view(*o), key@) {
            Some(b) => r == Ok::<u32, ForecastError>(b),
            None => r matches Err(e) && e is Serde,
        },
{
    let i = read_integer(o, key, 0, 0xffff_ffff)?;
    Ok(i as u32)
}

fn read_i8(o: &serde_json::Value, key: &'static str) -> (r: Result<i8, ForecastError>)
    ensures
        match i8_member(json_view(*o), key@) {
            Some(b) => r == Ok::<i8, ForecastError>(b),
            None => r matches Err(e) && e is Serde,
        },
{
    let i = read_integer(o, key, -128, 127)?;
    Ok(i as i8)
}

fn read_optional_u8(o: &serde_json::Value, key: &'static str) -> (r: Result<Option<u8>, ForecastError>)
    ensures
        match optional_u8_member(json_view(*o), key@) {
            Some(b) => r == Ok::<Option<u8>, ForecastError>(b),
            None => r matches Err(e) && e is Serde,
        },
{
    match read_optional_integer(o, key, 0, 255)? {
        Some(i) => Ok(Some(i as u8)),
        None => Ok(None),
    }
}

fn read_optional_i8(o: &serde_json::Value, key: &'static str) -> (r: Result<Option<i8>, ForecastError>)
    ensures
        match optional_i8_member(json_view(*o), key@) {
            Some(b) => r == Ok::<Option<i8>, ForecastError>(b),
            None => r matches Err(e) && e is Serde,
        },
{
    match read_optional_integer(o, key, -128, 127)? {
        Some(i) => Ok(Some(i as i8)),
        None => Ok(None),
    }
}

pub(crate) fn read_time(o: &serde_json::Value, key: &'static str) -> (r: Result<UtcTime, ForecastError>)
    ensures
        match time_member(json_view(*o), key@) {
            Some(t) => r == Ok::<UtcTime, ForecastError>(t),
            None => r matches Err(e) && e is Serde,
        },
{
    match get_member(o, key) {
        None => Err(ForecastError::Serde(missing_field(key))),
        Some(v) => match as_text(v) {
            Some(text) => match UtcTime::parse(text) {
                Some(t) => Ok(t),
                None => Err(ForecastError::Serde(invalid_field(key))),
            },
            None => Err(ForecastError::Serde(invalid_field(key))),
        },
    }
}

pub(crate) fn read_text(o: &serde_json::Value, key: &'static str) -> (r: Result<String, ForecastError>)
    ensures
        match text_member(json_view(*o), key@) {
            Some(t) => r matches Ok(s) && s@ == t,
            None => r matches Err(e) && e is Serde,
        },
{
    match get_member(o, key) {
        None => Err(ForecastError::Serde(missing_field(key))),
        Some(v) => match as_text(v) {
            Some(text) => Ok(text.to_owned()),
            None => Err(ForecastError::Serde(invalid_field(key))),
        },
    }
}

/// One entry of an hourly time series, as the service writes it.
#[derive(Debug, Clone, Copy, PartialEq, Eq)]
pub struct RawHourlyForecast {
    pub time: UtcTime,
    pub screen_temperature: u64,
    pub max_screen_air_temp: Option<u64>,
    pub min_screen_air_temp: Option<u64>,
    pub screen_dew_point_temperature: u64,
    pub feels_like_temperature: u64,
    pub wind_speed_10m: u64,
    pub wind_direction_from_10m: u64,
    pub wind_gust_speed_10m: u64,
    pub max_10m_wind_gust: Option<u64>,
    pub visibility: u64,
    pub screen_relative_humidity: u64,
    pub mslp: u32,
    pub uv_index: u8,
    pub significant_weather_code: i8,
    pub precipitation_rate: u64,
    pub total_precip_amount: Option<u64>,
    pub total_snow_amount: Option<u64>,
    pub prob_of_precipitation: u64,
}

/// The record that a time-series entry holds, or `None` where a field is missing or of the
/// wrong type.
pub open spec fn hourly_record(o: JsonView) -> Option<RawHourlyForecast> {
    if time_member(o, "time"@) is Some
        && decimal_member(o, "screenTemperature"@) is Some
        && optional_decimal_member(o, "maxScreenAirTemp"@) is Some
        && optional_decimal_member(o, "minScreenAirTemp"@) is Some
        && decimal_member(o, "screenDewPointTemperature"@) is Some
        && decimal_member(o, "feelsLikeTemperature"@) is Some
        && decimal_member(o, "windSpeed10m"@) is Some
        && decimal_member(o, "windDirectionFrom10m"@) is Some
        && decimal_member(o, "windGustSpeed10m"@) is Some
        && optional_decimal_member(o, "max10mWindGust"@) is Some
        && decimal_member(o, "visibility"@) is Some
        && decimal_member(o, "screenRelativeHumidity"@) is Some
        && u32_member(o, "mslp"@) is Some
        && u8_member(o, "uvIndex"@) is Some
        && i8_member(o, "significantWeatherCode"@) is Some
        && decimal_member(o, "precipitationRate"@) is Some
        && optional_decimal_member(o, "totalPrecipAmount"@) is Some
        && optional_decimal_member(o, "totalSnowAmount"@) is Some
        && decimal_member(o, "probOfPrecipitation"@) is Some {
        Some(RawHourlyForecast {
            time: time_member(o, "time"@)->Some_0,
            screen_temperature: decimal_member(o, "screenTemperature"@)->Some_0,
            max_screen_air_temp: optional_decimal_member(o, "maxScreenAirTemp"@)->Some_0,
            min_screen_air_temp: optional_decimal_member(o, "minScreenAirTemp"@)->Some_0,
            screen_dew_point_temperature: decimal_member(o, "screenDewPointTemperature"@)->Some_0,
            feels_like_temperature: decimal_member(o, "feelsLikeTemperature"@)->Some_0,
            wind_speed_10m: decimal_member(o, "windSpeed10m"@)->Some_0,
            wind_direction_from_10m: decimal_member(o, "windDirectionFrom10m"@)->Some_0,
            wind_gust_speed_10m: decimal_member(o, "windGustSpeed10m"@)->Some_0,
            max_10m_wind_gust: optional_decimal_member(o, "max10mWindGust"@)->Some_0,
            visibility: decimal_member(o, "visibility"@)->Some_0,
            screen_relative_humidity: decimal_member(o, "screenRelativeHumidity"@)->Some_0,
            mslp: u32_member(o, "mslp"@)->Some_0,
            uv_index: u8_member(o, "uvIndex"@)->Some_0,
            significant_weather_code: i8_member(o, "significantWeatherCode"@)->Some_0,
            precipitation_rate: decimal_member(o, "precipitationRate"@)->Some_0,
            total_precip_amount: optional_decimal_member(o, "totalPrecipAmount"@)->Some_0,
            total_snow_amount: optional_decimal_member(o, "totalSnowAmount"@)->Some_0,
            prob_of_precipitation: decimal_member(o, "probOfPrecipitation"@)->Some_0,
        })
    } else {
        None
    }
}

impl RawHourlyForecast {
    /// Reads the record from a time-series entry.
    pub fn decode(v: &serde_json::Value) -> (r: Result<RawHourlyForecast, ForecastError>)
        ensures
            match hourly_record(json_view(*v)) {
                Some(x) => r == Ok::<RawHourlyForecast, ForecastError>(x),
                None => r matches Err(e) && e is Serde,
            },
    {
        let time = read_time(v, "time")?;
        let screen_temperature = read_decimal(v, "screenTemperature")?;
        let max_screen_air_temp = read_optional_decimal(v, "maxScreenAirTemp")?;
        let min_screen_air_temp = read_optional_decimal(v, "minScreenAirTemp")?;
        let screen_dew_point_temperature = read_decimal(v, "screenDewPointTemperature")?;
        let feels_like_temperature = read_decimal(v, "feelsLikeTemperature")?;
        let wind_speed_10m = read_decimal(v, "windSpeed10m")?;
        let wind_direction_from_10m = read_decimal(v, "windDirectionFrom10m")?;
        let wind_gust_speed_10m = read_decimal(v, "windGustSpeed10m")?;
        let max_10m_wind_gust = read_optional_decimal(v, "max10mWindGust")?;
        let visibility = read_decimal(v, "visibility")?;
        let screen_relative_humidity = read_decimal(v, "screenRelativeHumidity")?;
        let mslp = read_u32(v, "mslp")?;
        let uv_index = read_u8(v, "uvIndex")?;
        let significant_weather_code = read_i8(v, "significantWeatherCode")?;
        let precipitation_rate = read_decimal(v, "precipitationRate")?;
        let total_precip_amount = read_optional_decimal(v, "totalPrecipAmount")?;
        let total_snow_amount = read_optional_decimal(v, "totalSnowAmount")?;
        let prob_of_precipitation = read_decimal(v, "probOfPrecipitation")?;
        Ok(RawHourlyForecast {
            time,
            screen_temperature,
            max_screen_air_temp,
            min_screen_air_temp,
            screen_dew_point_temperature,
            feels_like_temperature,
            wind_speed_10m,
            wind_direction_from_10m,
            wind_gust_speed_10m,
            max_10m_wind_gust,
            visibility,
            screen_relative_humidity,
            mslp,
            uv_index,
            significant_weather_code,
            precipitation_rate,
            total_precip_amount,
            total_snow_amount,
            prob_of_precipitation,
        })
    }
}

/// One entry of a three-hourly time series, as the service writes it.
#[derive(Debug, Clone, Copy, PartialEq, Eq)]
pub struct RawThreeHourlyForecast {
    pub time: UtcTime,
    pub max_screen_air_temp: u64,
    pub min_screen_air_temp: u64,
    pub feels_like_temp: u64,
    pub wind_speed_10m: u64,
    pub wind_direction_from_10m: u64,
    pub wind_gust_speed_10m: u64,
    pub max_10m_wind_gust: u64,
    pub visibility: u64,
    pub screen_relative_humidity: u64,
    pub mslp: u32,
    pub uv_index: u8,
    pub significant_weather_code: i8,
    pub total_precip_amount: u64,
    pub total_snow_amount: u64,
    pub prob_of_precipitation: u64,
    pub prob_of_snow: u64,
    pub prob_of_heavy_snow: u64,
    pub prob_of_rain: u64,
    pub prob_of_heavy_rain: u64,
    pub prob_of_hail: u64,
    pub prob_of_sferics: u64,
}

/// The record that a time-series entry holds, or `None` where a field is missing or of the
/// wrong type.
pub open spec fn three_hourly_record(o: JsonView) -> Option<RawThreeHourlyForecast> {
    if time_member(o, "time"@) is Some
        && decimal_member(o, "maxScreenAirTemp"@) is Some
        && decimal_member(o, "minScreenAirTemp"@) is Some
        && decimal_member(o, "feelsLikeTemp"@) is Some
        && decimal_member(o, "windSpeed10m"@) is Some
        && decimal_member(o, "windDirectionFrom10m"@) is Some
        && decimal_member(o, "windGustSpeed10m"@) is Some
        && decimal_member(o, "max10mWindGust"@) is Some
        && decimal_member(o, "visibility"@) is Some
        && decimal_member(o, "screenRelativeHumidity"@) is Some
        && u32_member(o, "mslp"@) is Some
        && u8_member(o, "uvIndex"@) is Some
        && i8_member(o, "significantWeatherCode"@) is Some
        && decimal_member(o, "totalPrecipAmount"@) is Some
        && decimal_member(o, "totalSnowAmount"@) is Some
        && decimal_member(o, "probOfPrecipitation"@) is Some
        && decimal_member(o, "probOfSnow"@) is Some
        && decimal_member(o, "probOfHeavySnow"@) is Some
        && decimal_member(o, "probOfRain"@) is Some
        && decimal_member(o, "probOfHeavyRain"@) is Some
        && decimal_member(o, "probOfHail"@) is Some
        && decimal_member(o, "probOfSferics"@) is Some {
        Some(RawThreeHourlyForecast {
            time: time_member(o, "time"@)->Some_0,
            max_screen_air_temp: decimal_member(o, "maxScreenAirTemp"@)->Some_0,
            min_screen_air_temp: decimal_member(o, "minScreenAirTemp"@)->Some_0,
            feels_like_temp: decimal_member(o, "feelsLikeTemp"@)->Some_0,
            wind_speed_10m: decimal_member(o, "windSpeed10m"@)->Some_0,
            wind_direction_from_10m: decimal_member(o, "windDirectionFrom10m"@)->Some_0,
            wind_gust_speed_10m: decimal_member(o, "windGustSpeed10m"@)->Some_0,
            max_10m_wind_gust: decimal_member(o, "max10mWindGust"@)->Some_0,
            visibility: decimal_member(o, "visibility"@)->Some_0,
            screen_relative_humidity: decimal_member(o, "screenRelativeHumidity"@)->Some_0,
            mslp: u32_member(o, "mslp"@)->Some_0,
            uv_index: u8_member(o, "uvIndex"@)->Some_0,
            significant_weather_code: i8_member(o, "significantWeatherCode"@)->Some_0,
            total_precip_amount: decimal_member(o, "totalPrecipAmount"@)->Some_0,
            total_snow_amount: decimal_member(o, "totalSnowAmount"@)->Some_0,
            prob_of_precipitation: decimal_member(o, "probOfPrecipitation"@)->Some_0,
            prob_of_snow: decimal_member(o, "probOfSnow"@)->Some_0,
            prob_of_heavy_snow: decimal_member(o, "probOfHeavySnow"@)->Some_0,
            prob_of_rain: decimal_member(o, "probOfRain"@)->Some_0,
            prob_of_heavy_rain: decimal_member(o, "probOfHeavyRain"@)->Some_0,
            prob_of_hail: decimal_member(o, "probOfHail"@)->Some_0,
            prob_of_sferics: decimal_member(o, "probOfSferics"@)->Some_0,
        })
    } else {
        None
    }
}

impl RawThreeHourlyForecast {
    /// Reads the record from a time-series entry.
    pub fn decode(v: &serde_json::Value) -> (r: Result<RawThreeHourlyForecast, ForecastError>)
        ensures
            match three_hourly_record(json_view(*v)) {
                Some(x) => r == Ok::<RawThreeHourlyForecast, ForecastError>(x),
                None => r matches Err(e) && e is Serde,
            },
    {
        let time = read_time(v, "time")?;
        let max_screen_air_temp = read_decimal(v, "maxScreenAirTemp")?;
        let min_screen_air_temp = read_decimal(v, "minScreenAirTemp")?;
        let feels_like_temp = read_decimal(v, "feelsLikeTemp")?;
        let wind_speed_10m = read_decimal(v, "windSpeed10m")?;
        let wind_direction_from_10m = read_decimal(v, "windDirectionFrom10m")?;
        let wind_gust_speed_10m = read_decimal(v, "windGustSpeed10m")?;
        let max_10m_wind_gust = read_decimal(v, "max10mWindGust")?;
        let visibility = read_decimal(v, "visibility")?;
        let screen_relative_humidity = read_decimal(v, "screenRelativeHumidity")?;
        let mslp = read_u32(v, "mslp")?;
        let uv_index = read_u8(v, "uvIndex")?;
        let significant_weather_code = read_i8(v, "significantWeatherCode")?;
        let total_precip_amount = read_decimal(v, "totalPrecipAmount")?;
        let total_snow_amount = read_decimal(v, "totalSnowAmount")?;
        let prob_of_precipitation = read_decimal(v, "probOfPrecipitation")?;
        let prob_of_snow = read_decimal(v, "probOfSnow")?;
        let prob_of_heavy_snow = read_decimal(v, "probOfHeavySnow")?;
        let prob_of_rain = read_decimal(v, "probOfRain")?;
        let prob_of_heavy_rain = read_decimal(v, "probOfHeavyRain")?;
        let prob_of_hail = read_decimal(v, "probOfHail")?;
        let prob_of_sferics = read_decimal(v, "probOfSferics")?;
        Ok(RawThreeHourlyForecast {
            time,
            max_screen_air_temp,
            min_screen_air_temp,
            feels_like_temp,
            wind_speed_10m,
            wind_direction_from_10m,
            wind_gust_speed_10m,
            max_10m_wind_gust,
            visibility,
            screen_relative_humidity,
            mslp,
            uv_index,
            significant_weather_code,
            total_precip_amount,
            total_snow_amount,
            prob_of_precipitation,
            prob_of_snow,
            prob_of_heavy_snow,
            prob_of_rain,
            prob_of_heavy_rain,
            prob_of_hail,
            prob_of_sferics,
        })
    }
}

/// One entry of a daily time series, as the service writes it: a day and the night after it.
#[derive(Debug, Clone, Copy, PartialEq, Eq)]
pub struct RawDailyForecast {
    pub time: UtcTime,
    pub day_significant_weather_code: Option<i8>,
    pub day_max_screen_temperature: u64,
    pub day_upper_bound_max_temp: u64,
    pub day_lower_bound_max_temp: u64,
    pub day_max_feels_like_temp: Option<u64>,
    pub day_upper_bound_max_feels_like_temp: u64,
    pub day_lower_bound_max_feels_like_temp: u64,
    pub day_probability_of_precipitation: Option<u64>,
    pub day_probability_of_rain: Option<u64>,
    pub day_probability_of_heavy_rain: Option<u64>,
    pub day_probability_of_snow: Option<u64>,
    pub day_probability_of_heavy_snow: Option<u64>,
    pub day_probability_of_hail: Option<u64>,
    pub day_probability_of_sferics: Option<u64>,
    pub max_uv_index: Option<u8>,
    pub midday_10m_wind_speed: u64,
    pub midday_10m_wind_direction: u64,
    pub midday_10m_wind_gust: u64,
    pub midday_mslp: u32,
    pub midday_relative_humidity: u64,
    pub midday_visibility: u64,
    pub night_significant_weather_code: i8,
    pub night_min_screen_temperature: u64,
    pub night_upper_bound_min_temp: u64,
    pub night_lower_bound_min_temp: u64,
    pub night_min_feels_like_temp: u64,
    pub night_upper_bound_min_feels_like_temp: u64,
    pub night_lower_bound_min_feels_like_temp: u64,
    pub night_probability_of_precipitation: u64,
    pub night_probability_of_rain: u64,
    pub night_probability_of_heavy_rain: u64,
    pub night_probability_of_snow: u64,
    pub night_probability_of_heavy_snow: u64,
    pub night_probability_of_hail: u64,
    pub night_probability_of_sferics: u64,
    pub midnight_10m_wind_speed: u64,
    pub midnight_10m_wind_direction: u64,
    pub midnight_10m_wind_gust: u64,
    pub midnight_mslp: u32,
    pub midnight_relative_humidity: u64,
    pub midnight_visibility: u64,
}

/// The record that a time-series entry holds, or `None` where a field is missing or of the
/// wrong type.
pub open spec fn daily_record(o: JsonView) -> Option<RawDailyForecast> {
    if time_member(o, "time"@) is Some
        && optional_i8_member(o, "daySignificantWeatherCode"@) is Some
        && decimal_member(o, "dayMaxScreenTemperature"@) is Some
        && decimal_member(o, "dayUpperBoundMaxTemp"@) is Some
        && decimal_member(o, "dayLowerBoundMaxTemp"@) is Some
        && optional_decimal_member(o, "dayMaxFeelsLikeTemp"@) is Some
        && decimal_member(o, "dayUpperBoundMaxFeelsLikeTemp"@) is Some
        && decimal_member(o, "dayLowerBoundMaxFeelsLikeTemp"@) is Some
        && optional_decimal_member(o, "dayProbabilityOfPrecipitation"@) is Some
        && optional_decimal_member(o, "dayProbabilityOfRain"@) is Some
        && optional_decimal_member(o, "dayProbabilityOfHeavyRain"@) is Some
        && optional_decimal_member(o, "dayProbabilityOfSnow"@) is Some
        && optional_decimal_member(o, "dayProbabilityOfHeavySnow"@) is Some
        && optional_decimal_member(o, "dayProbabilityOfHail"@) is Some
        && optional_decimal_member(o, "dayProbabilityOfSferics"@) is Some
        && optional_u8_member(o, "maxUvIndex"@) is Some
        && decimal_member(o, "midday10MWindSpeed"@) is Some
        && decimal_member(o, "midday10MWindDirection"@) is Some
        && decimal_member(o, "midday10MWindGust"@) is Some
        && u32_member(o, "middayMslp"@) is Some
        && decimal_member(o, "middayRelativeHumidity"@) is Some
        && decimal_member(o, "middayVisibility"@) is Some
        && i8_member(o, "nightSignificantWeatherCode"@) is Some
        && decimal_member(o, "nightMinScreenTemperature"@) is Some
        && decimal_member(o, "nightUpperBoundMinTemp"@) is Some
        && decimal_member(o, "nightLowerBoundMinTemp"@) is Some
        && decimal_member(o, "nightMinFeelsLikeTemp"@) is Some
        && decimal_member(o, "nightUpperBoundMinFeelsLikeTemp"@) is Some
        && decimal_member(o, "nightLowerBoundMinFeelsLikeTemp"@) is Some
        && decimal_member(o, "nightProbabilityOfPrecipitation"@) is Some
        && decimal_member(o, "nightProbabilityOfRain"@) is Some
        && decimal_member(o, "nightProbabilityOfHeavyRain"@) is Some
        && decimal_member(o, "nightProbabilityOfSnow"@) is Some
        && decimal_member(o, "nightProbabilityOfHeavySnow"@) is Some
        && decimal_member(o, "nightProbabilityOfHail"@) is Some
        && decimal_member(o, "nightProbabilityOfSferics"@) is Some
        && decimal_member(o, "midnight10MWindSpeed"@) is Some
        && decimal_member(o, "midnight10MWindDirection"@) is Some
        && decimal_member(o, "midnight10MWindGust"@) is Some
        && u32_member(o, "midnightMslp"@) is Some
        && decimal_member(o, "midnightRelativeHumidity"@) is Some
        && decimal_member(o, "midnightVisibility"@) is Some {
        Some(RawDailyForecast {
            time: time_member(o, "time"@)->Some_0,
            day_significant_weather_code: optional_i8_member(o, "daySignificantWeatherCode"@)->Some_0,
            day_max_screen_temperature: decimal_member(o, "dayMaxScreenTemperature"@)->Some_0,
            day_upper_bound_max_temp: decimal_member(o, "dayUpperBoundMaxTemp"@)->Some_0,
            day_lower_bound_max_temp: decimal_member(o, "dayLowerBoundMaxTemp"@)->Some_0,
            day_max_feels_like_temp: optional_decimal_member(o, "dayMaxFeelsLikeTemp"@)->Some_0,
            day_upper_bound_max_feels_like_temp: decimal_member(o, "dayUpperBoundMaxFeelsLikeTemp"@)->Some_0,
            day_lower_bound_max_feels_like_temp: decimal_member(o, "dayLowerBoundMaxFeelsLikeTemp"@)->Some_0,
            day_probability_of_precipitation: optional_decimal_member(o, "dayProbabilityOfPrecipitation"@)->Some_0,
            day_probability_of_rain: optional_decimal_member(o, "dayProbabilityOfRain"@)->Some_0,
            day_probability_of_heavy_rain: optional_decimal_member(o, "dayProbabilityOfHeavyRain"@)->Some_0,
            day_probability_of_snow: optional_decimal_member(o, "dayProbabilityOfSnow"@)->Some_0,
            day_probability_of_heavy_snow: optional_decimal_member(o, "dayProbabilityOfHeavySnow"@)->Some_0,
            day_probability_of_hail: optional_decimal_member(o, "dayProbabilityOfHail"@)->Some_0,
            day_probability_of_sferics: optional_decimal_member(o, "dayProbabilityOfSferics"@)->Some_0,
            max_uv_index: optional_u8_member(o, "maxUvIndex"@)->Some_0,
            midday_10m_wind_speed: decimal_member(o, "midday10MWindSpeed"@)->Some_0,
            midday_10m_wind_direction: decimal_member(o, "midday10MWindDirection"@)->Some_0,
            midday_10m_wind_gust: decimal_member(o, "midday10MWindGust"@)->Some_0,
            midday_mslp: u32_member(o, "middayMslp"@)->Some_0,
            midday_relative_humidity: decimal_member(o, "middayRelativeHumidity"@)->Some_0,
            midday_visibility: decimal_member(o, "middayVisibility"@)->Some_0,
            night_significant_weather_code: i8_member(o, "nightSignificantWeatherCode"@)->Some_0,
            night_min_screen_temperature: decimal_member(o, "nightMinScreenTemperature"@)->Some_0,
            night_upper_bound_min_temp: decimal_member(o, "nightUpperBoundMinTemp"@)->Some_0,
            night_lower_bound_min_temp: decimal_member(o, "nightLowerBoundMinTemp"@)->Some_0,
            night_min_feels_like_temp: decimal_member(o, "nightMinFeelsLikeTemp"@)->Some_0,
            night_upper_bound_min_feels_like_temp: decimal_member(o, "nightUpperBoundMinFeelsLikeTemp"@)->Some_0,
            night_lower_bound_min_feels_like_temp: decimal_member(o, "nightLowerBoundMinFeelsLikeTemp"@)->Some_0,
            night_probability_of_precipitation: decimal_member(o, "nightProbabilityOfPrecipitation"@)->Some_0,
            night_probability_of_rain: decimal_member(o, "nightProbabilityOfRain"@)->Some_0,
            night_probability_of_heavy_rain: decimal_member(o, "nightProbabilityOfHeavyRain"@)->Some_0,
            night_probability_of_snow: decimal_member(o, "nightProbabilityOfSnow"@)->Some_0,
            night_probability_of_heavy_snow: decimal_member(o, "nightProbabilityOfHeavySnow"@)->Some_0,
            night_probability_of_hail: decimal_member(o, "nightProbabilityOfHail"@)->Some_0,
            night_probability_of_sferics: decimal_member(o, "nightProbabilityOfSferics"@)->Some_0,
            midnight_10m_wind_speed: decimal_member(o, "midnight10MWindSpeed"@)->Some_0,
            midnight_10m_wind_direction: decimal_member(o, "midnight10MWindDirection"@)->Some_0,
            midnight_10m_wind_gust: decimal_member(o, "midnight10MWindGust"@)->Some_0,
            midnight_mslp: u32_member(o, "midnightMslp"@)->Some_0,
            midnight_relative_humidity: decimal_member(o, "midnightRelativeHumidity"@)->Some_0,
            midnight_visibility: decimal_member(o, "midnightVisibility"@)->Some_0,
        })
    } else {
        None
    }
}

impl RawDailyForecast {
    /// Reads the record from a time-series entry.
    pub fn decode(v: &serde_json::Value) -> (r: Result<RawDailyForecast, ForecastError>)
        ensures
            match daily_record(json_view(*v)) {
                Some(x) => r == Ok::<RawDailyForecast, ForecastError>(x),
                None => r matches Err(e) && e is Serde,
            },
    {
        let time = read_time(v, "time")?;
        let day_significant_weather_code = read_optional_i8(v, "daySignificantWeatherCode")?;
        let day_max_screen_temperature = read_decimal(v, "dayMaxScreenTemperature")?;
        let day_upper_bound_max_temp = read_decimal(v, "dayUpperBoundMaxTemp")?;
        let day_lower_bound_max_temp = read_decimal(v, "dayLowerBoundMaxTemp")?;
        let day_max_feels_like_temp = read_optional_decimal(v, "dayMaxFeelsLikeTemp")?;
        let day_upper_bound_max_feels_like_temp = read_decimal(v, "dayUpperBoundMaxFeelsLikeTemp")?;
        let day_lower_bound_max_feels_like_temp = read_decimal(v, "dayLowerBoundMaxFeelsLikeTemp")?;
        let day_probability_of_precipitation = read_optional_decimal(v, "dayProbabilityOfPrecipitation")?;
        let day_probability_of_rain = read_optional_decimal(v, "dayProbabilityOfRain")?;
        let day_probability_of_heavy_rain = read_optional_decimal(v, "dayProbabilityOfHeavyRain")?;
        let day_probability_of_snow = read_optional_decimal(v, "dayProbabilityOfSnow")?;
        let day_probability_of_heavy_snow = read_optional_decimal(v, "dayProbabilityOfHeavySnow")?;
        let day_probability_of_hail = read_optional_decimal(v, "dayProbabilityOfHail")?;
        let day_probability_of_sferics = read_optional_decimal(v, "dayProbabilityOfSferics")?;
        let max_uv_index = read_optional_u8(v, "maxUvIndex")?;
        let midday_10m_wind_speed = read_decimal(v, "midday10MWindSpeed")?;
        let midday_10m_wind_direction = read_decimal(v, "midday10MWindDirection")?;
        let midday_10m_wind_gust = read_decimal(v, "midday10MWindGust")?;
        let midday_mslp = read_u32(v, "middayMslp")?;
        let midday_relative_humidity = read_decimal(v, "middayRelativeHumidity")?;
        let midday_visibility = read_decimal(v, "middayVisibility")?;
        let night_significant_weather_code = read_i8(v, "nightSignificantWeatherCode")?;
        let night_min_screen_temperature = read_decimal(v, "nightMinScreenTemperature")?;
        let night_upper_bound_min_temp = read_decimal(v, "nightUpperBoundMinTemp")?;
        let night_lower_bound_min_temp = read_decimal(v, "nightLowerBoundMinTemp")?;
        let night_min_feels_like_temp = read_decimal(v, "nightMinFeelsLikeTemp")?;
        let night_upper_bound_min_feels_like_temp = read_decimal(v, "nightUpperBoundMinFeelsLikeTemp")?;
        let night_lower_bound_min_feels_like_temp = read_decimal(v, "nightLowerBoundMinFeelsLikeTemp")?;
        let night_probability_of_precipitation = read_decimal(v, "nightProbabilityOfPrecipitation")?;
        let night_probability_of_rain = read_decimal(v, "nightProbabilityOfRain")?;
        let night_probability_of_heavy_rain = read_decimal(v, "nightProbabilityOfHeavyRain")?;
        let night_probability_of_snow = read_decimal(v, "nightProbabilityOfSnow")?;
        let night_probability_of_heavy_snow = read_decimal(v, "nightProbabilityOfHeavySnow")?;
        let night_probability_of_hail = read_decimal(v, "nightProbabilityOfHail")?;
        let night_probability_of_sferics = read_decimal(v, "nightProbabilityOfSferics")?;
        let midnight_10m_wind_speed = read_decimal(v, "midnight10MWindSpeed")?;
        let midnight_10m_wind_direction = read_decimal(v, "midnight10MWindDirection")?;
        let midnight_10m_wind_gust = read_decimal(v, "midnight10MWindGust")?;
        let midnight_mslp = read_u32(v, "midnightMslp")?;
        let midnight_relative_humidity = read_decimal(v, "midnightRelativeHumidity")?;
        let midnight_visibility = read_decimal(v, "midnightVisibility")?;
        Ok(RawDailyForecast {
            time,
            day_significant_weather_code,
            day_max_screen_temperature,
            day_upper_bound_max_temp,
            day_lower_bound_max_temp,
            day_max_feels_like_temp,
            day_upper_bound_max_feels_like_temp,
            day_lower_bound_max_feels_like_temp,
            day_probability_of_precipitation,
            day_probability_of_rain,
            day_probability_of_heavy_rain,
            day_probability_of_snow,
            day_probability_of_heavy_snow,
            day_probability_of_hail,
            day_probability_of_sferics,
            max_uv_index,
            midday_10m_wind_speed,
            midday_10m_wind_direction,
            midday_10m_wind_gust,
            midday_mslp,
            midday_relative_humidity,
            midday_visibility,
            night_significant_weather_code,
            night_min_screen_temperature,
            night_upper_bound_min_temp,
            night_lower_bound_min_temp,
            night_min_feels_like_temp,
            night_upper_bound_min_feels_like_temp,
            night_lower_bound_min_feels_like_temp,
            night_probability_of_precipitation,
            night_probability_of_rain,
            night_probability_of_heavy_rain,
            night_probability_of_snow,
            night_probability_of_heavy_snow,
            night_probability_of_hail,
            night_probability_of_sferics,
            midnight_10m_wind_speed,
            midnight_10m_wind_direction,
            midnight_10m_wind_gust,
            midnight_mslp,
            midnight_relative_humidity,
            midnight_visibility,
        })
    }
}

} // verus!
