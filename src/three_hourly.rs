use vstd::prelude::*;
use crate::error::ForecastError;
use crate::parse::RawThreeHourlyForecast;
use crate::time::UtcTime;
use crate::units::{
    condition_of, is_weather_code, Celsius, Conditions, Degrees, Metres, MetresPerSecond,
    Millimetres, Pascals, Percentage, UvIndex,
};

verus! {

/// Forecast for a three-hour period.
#[derive(Debug, Clone, Copy, PartialEq, Eq)]
pub struct ThreeHourly {
    /// Time at which this forecast is valid.
    pub time: UtcTime,
    /// The most significant weather conditions at this time, taking into account both
    /// instantaneous and preceding conditions.
    pub conditions: Conditions,
    /// Maximum air temperature at screen level, 1.5m above ground.
    pub temperature_maximum: Celsius,
    /// Minimum air temperature at screen level, 1.5m above ground.
    pub temperature_minimum: Celsius,
    /// The temperature it feels like, taking into account humidity and wind chill but not
    /// radiation.
    pub temperature_feels_like: Celsius,
    /// Mean wind speed over the 10 minutes before the validity time, 10m above ground.
    pub wind_speed: MetresPerSecond,
    /// Direction from which the wind is blowing.
    pub wind_direction: Degrees,
    /// Maximum 3-second mean wind speed over the 10 minutes before the validity time.
    pub wind_gust_speed: MetresPerSecond,
    /// Most extreme wind speed that might be experienced in this period.
    pub wind_gust_three_hourly_maximum: MetresPerSecond,
    /// Distance at which a known object can be seen horizontally from screen level.
    pub visibility: Metres,
    /// Relative humidity at screen level.
    pub relative_humidity: Percentage,
    /// Air pressure at mean sea level.
    pub pressure: Pascals,
    /// Maximum UV value over the previous three hours.
    pub uv_index: UvIndex,
    /// Depth of liquid water deposited in the previous three hours.
    pub precipitation_total: Millimetres,
    /// Snow that has fallen in the previous three hours, as liquid water equivalent.
    pub snow_total: Millimetres,
    /// Probability of precipitation over the three hours centred at the validity time.
    pub precipitation_probability: Percentage,
    /// Probability of rain over the three hours centred at the validity time.
    pub rain_probability: Percentage,
    /// Probability of heavy rain, more than 1mm per hour.
    pub heavy_rain_probability: Percentage,
    /// Probability of snow over the three hours centred at the validity time.
    pub snow_probability: Percentage,
    /// Probability of heavy snow, more than 1mm liquid water equivalent per hour.
    pub heavy_snow_probability: Percentage,
    /// Probability of hail over the three hours centred at the validity time.
    pub hail_probability: Percentage,
    /// Probability of a lightning strike within 50km over the three hours centred at the
    /// validity time.
    pub lightning_probability: Percentage,
}

/// The three-hourly forecast that a raw entry converts to, or `None` where its weather code is
/// unknown.
pub open spec fn three_hourly_of(rf: RawThreeHourlyForecast) -> Option<ThreeHourly> {
    if is_weather_code(rf.significant_weather_code) {
        Some(
            ThreeHourly {
                time: rf.time,
                conditions: condition_of(rf.significant_weather_code),
                temperature_maximum: Celsius(rf.max_screen_air_temp),
                temperature_minimum: Celsius(rf.min_screen_air_temp),
                temperature_feels_like: Celsius(rf.feels_like_temp),
                wind_speed: MetresPerSecond(rf.wind_speed_10m),
                wind_direction: Degrees(rf.wind_direction_from_10m),
                wind_gust_speed: MetresPerSecond(rf.wind_gust_speed_10m),
                wind_gust_three_hourly_maximum: MetresPerSecond(rf.max_10m_wind_gust),
                visibility: Metres(rf.visibility),
                relative_humidity: Percentage(rf.screen_relative_humidity),
                pressure: Pascals(rf.mslp),
                uv_index: UvIndex(rf.uv_index),
                precipitation_total: Millimetres(rf.total_precip_amount),
                snow_total: Millimetres(rf.total_snow_amount),
                precipitation_probability: Percentage(rf.prob_of_precipitation),
                rain_probability: Percentage(rf.prob_of_rain),
                heavy_rain_probability: Percentage(rf.prob_of_heavy_rain),
                snow_probability: Percentage(rf.prob_of_snow),
                heavy_snow_probability: Percentage(rf.prob_of_heavy_snow),
                hail_probability: Percentage(rf.prob_of_hail),
                lightning_probability: Percentage(rf.prob_of_sferics),
            },
        )
    } else {
        None
    }
}

/// Whether `r` is what converting `rf` gives: the forecast, or the unknown-code error.
pub open spec fn converts_three_hourly(
    rf: RawThreeHourlyForecast,
    r: Result<ThreeHourly, ForecastError>,
) -> bool {
    match three_hourly_of(rf) {
        Some(h) => r == Ok::<ThreeHourly, ForecastError>(h),
        None => r == Err::<ThreeHourly, ForecastError>(
            ForecastError::UnknownWeatherCondition(rf.significant_weather_code),
        ),
    }
}

impl ThreeHourly {
    /// Converts a raw entry; every field is required, and only an unknown weather code fails.
    pub fn try_from(rf: RawThreeHourlyForecast) -> (r: Result<ThreeHourly, ForecastError>)
        ensures
            converts_three_hourly(rf, r),
    {
        let conditions = match Conditions::try_from(rf.significant_weather_code) {
            Ok(c) => c,
            Err(e) => return Err(e),
        };
        Ok(
            ThreeHourly {
                time: rf.time,
                conditions: conditions,
                temperature_maximum: Celsius(rf.max_screen_air_temp),
                temperature_minimum: Celsius(rf.min_screen_air_temp),
                temperature_feels_like: Celsius(rf.feels_like_temp),
                wind_speed: MetresPerSecond(rf.wind_speed_10m),
                wind_direction: Degrees(rf.wind_direction_from_10m),
                wind_gust_speed: MetresPerSecond(rf.wind_gust_speed_10m),
                wind_gust_three_hourly_maximum: MetresPerSecond(rf.max_10m_wind_gust),
                visibility: Metres(rf.visibility),
                relative_humidity: Percentage(rf.screen_relative_humidity),
                pressure: Pascals(rf.mslp),
                uv_index: UvIndex(rf.uv_index),
                precipitation_total: Millimetres(rf.total_precip_amount),
                snow_total: Millimetres(rf.total_snow_amount),
                precipitation_probability: Percentage(rf.prob_of_precipitation),
                rain_probability: Percentage(rf.prob_of_rain),
                heavy_rain_probability: Percentage(rf.prob_of_heavy_rain),
                snow_probability: Percentage(rf.prob_of_snow),
                heavy_snow_probability: Percentage(rf.prob_of_heavy_snow),
                hail_probability: Percentage(rf.prob_of_hail),
                lightning_probability: Percentage(rf.prob_of_sferics),
            },
        )
    }
}

/// Converting a raw entry is deterministic: two conversions of the same entry give the same
/// forecast, or the same unknown-code error.
pub proof fn lemma_three_hourly_conversion_deterministic(
    rf: RawThreeHourlyForecast,
    r1: Result<ThreeHourly, ForecastError>,
    r2: Result<ThreeHourly, ForecastError>,
)
    requires
        converts_three_hourly(rf, r1),
        converts_three_hourly(rf, r2),
    ensures
        r1 == r2,
{
}

} // verus!
