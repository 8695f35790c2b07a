use vstd::prelude::*;
use crate::error::ForecastError;
use crate::parse::RawHourlyForecast;
use crate::time::UtcTime;
use crate::units::{
    condition_of, is_weather_code, Celsius, Conditions, Degrees, Metres, MetresPerSecond,
    Millimetres, MillimetresPerHour, Pascals, Percentage, UvIndex,
};

verus! {

/// Forecast for one hour.
#[derive(Debug, Clone, Copy, PartialEq, Eq)]
pub struct Hourly {
    /// Time at which this forecast is valid.
    pub time: UtcTime,
    /// The most significant weather conditions at this time, taking into account both
    /// instantaneous and preceding conditions.
    pub conditions: Conditions,
    /// Temperature at screen level, about 1.5m above ground.
    pub temperature: Celsius,
    /// Maximum air temperature at screen level; missing after 48 hours.
    pub temperature_maximum: Option<Celsius>,
    /// Minimum air temperature at screen level; missing after 48 hours.
    pub temperature_minimum: Option<Celsius>,
    /// The temperature it feels like, taking into account humidity and wind chill but not
    /// radiation.
    pub temperature_feels_like: Celsius,
    /// Dew point temperature at screen level.
    pub screen_dew_point_temperature: Celsius,
    /// Probability of precipitation over the hour centred at the validity time.
    pub precipitation_probability: Percentage,
    /// Rate at which liquid water is being deposited on the surface.
    pub precipitation_rate: MillimetresPerHour,
    /// Depth of liquid water deposited since the previous hour; missing after 48 hours.
    pub precipitation_total: Option<Millimetres>,
    /// Snow that has fallen in the last hour, as liquid water equivalent; missing after 48 hours.
    pub snow_total: Option<Millimetres>,
    /// Mean wind speed over the 10 minutes before the validity time, 10m above ground.
    pub wind_speed: MetresPerSecond,
    /// Direction from which the wind is blowing.
    pub wind_direction: Degrees,
    /// Maximum 3-second mean wind speed over the 10 minutes before the validity time.
    pub wind_gust_speed: MetresPerSecond,
    /// Maximum 3-second mean wind speed over the hour before the validity time; missing after
    /// 48 hours.
    pub wind_gust_hourly_maximum_speed: Option<MetresPerSecond>,
    /// Distance at which a known object can be seen horizontally from screen level.
    pub visibility: Metres,
    /// Relative humidity at screen level.
    pub relative_humidity: Percentage,
    /// Air pressure at mean sea level.
    pub pressure: Pascals,
    /// Maximum UV value over the hour before the validity time.
    pub uv_index: UvIndex,
}

/// The hourly forecast that a raw entry converts to, or `None` where its weather code is unknown.
pub open spec fn hourly_of(rf: RawHourlyForecast) -> Option<Hourly> {
    if is_weather_code(rf.significant_weather_code) {
        Some(
            Hourly {
                time: rf.time,
                conditions: condition_of(rf.significant_weather_code),
                temperature: Celsius(rf.screen_temperature),
                temperature_maximum: match rf.max_screen_air_temp {
                    Some(t) => Some(Celsius(t)),
                    None => None,
                },
                temperature_minimum: match rf.min_screen_air_temp {
                    Some(t) => Some(Celsius(t)),
                    None => None,
                },
                temperature_feels_like: Celsius(rf.feels_like_temperature),
                screen_dew_point_temperature: Celsius(rf.screen_dew_point_temperature),
                precipitation_probability: Percentage(rf.prob_of_precipitation),
                precipitation_rate: MillimetresPerHour(rf.precipitation_rate),
                precipitation_total: match rf.total_precip_amount {
                    Some(t) => Some(Millimetres(t)),
                    None => None,
                },
                snow_total: match rf.total_snow_amount {
                    Some(t) => Some(Millimetres(t)),
                    None => None,
                },
                wind_speed: MetresPerSecond(rf.wind_speed_10m),
                wind_direction: Degrees(rf.wind_direction_from_10m),
                wind_gust_speed: MetresPerSecond(rf.wind_gust_speed_10m),
                wind_gust_hourly_maximum_speed: match rf.max_10m_wind_gust {
                    Some(t) => Some(MetresPerSecond(t)),
                    None => None,
                },
                visibility: Metres(rf.visibility),
                relative_humidity: Percentage(rf.screen_relative_humidity),
                pressure: Pascals(rf.mslp),
                uv_index: UvIndex(rf.uv_index),
            },
        )
    } else {
        None
    }
}

/// Whether `r` is what converting `rf` gives: the forecast, or the unknown-code error.
pub open spec fn converts_hourly(rf: RawHourlyForecast, r: Result<Hourly, ForecastError>) -> bool {
    match hourly_of(rf) {
        Some(h) => r == Ok::<Hourly, ForecastError>(h),
        None => r == Err::<Hourly, ForecastError>(
            ForecastError::UnknownWeatherCondition(rf.significant_weather_code),
        ),
    }
}

impl Hourly {
    /// Converts a raw entry; fails only on an unknown weather code. The five fields that the
    /// service leaves out after 48 hours stay optional.
    pub fn try_from(rf: RawHourlyForecast) -> (r: Result<Hourly, ForecastError>)
        ensures
            converts_hourly(rf, r),
    {
        let conditions = match Conditions::try_from(rf.significant_weather_code) {
            Ok(c) => c,
            Err(e) => return Err(e),
        };
        Ok(
            Hourly {
                time: rf.time,
                conditions,
                temperature: Celsius(rf.screen_temperature),
                temperature_maximum: match rf.max_screen_air_temp {
                    Some(t) => Some(Celsius(t)),
                    None => None,
                },
                temperature_minimum: match rf.min_screen_air_temp {
                    Some(t) => Some(Celsius(t)),
                    None => None,
                },
                temperature_feels_like: Celsius(rf.feels_like_temperature),
                screen_dew_point_temperature: Celsius(rf.screen_dew_point_temperature),
                precipitation_probability: Percentage(rf.prob_of_precipitation),
                precipitation_rate: MillimetresPerHour(rf.precipitation_rate),
                precipitation_total: match rf.total_precip_amount {
                    Some(t) => Some(Millimetres(t)),
                    None => None,
                },
                snow_total: match rf.total_snow_amount {
                    Some(t) => Some(Millimetres(t)),
                    None => None,
                },
                wind_speed: MetresPerSecond(rf.wind_speed_10m),
                wind_direction: Degrees(rf.wind_direction_from_10m),
                wind_gust_speed: MetresPerSecond(rf.wind_gust_speed_10m),
                wind_gust_hourly_maximum_speed: match rf.max_10m_wind_gust {
                    Some(t) => Some(MetresPerSecond(t)),
                    None => None,
                },
                visibility: Metres(rf.visibility),
                relative_humidity: Percentage(rf.screen_relative_humidity),
                pressure: Pascals(rf.mslp),
                uv_index: UvIndex(rf.uv_index),
            },
        )
    }
}

/// Converting a raw entry is deterministic: two conversions of the same entry give the same
/// forecast, or the same unknown-code error.
pub proof fn lemma_hourly_conversion_deterministic(
    rf: RawHourlyForecast,
    r1: Result<Hourly, ForecastError>,
    r2: Result<Hourly, ForecastError>,
)
    requires
        converts_hourly(rf, r1),
        converts_hourly(rf, r2),
    ensures
        r1 == r2,
{
}

} // verus!
