//! Daily forecast specific types.
use vstd::prelude::*;
use crate::error::ForecastError;
use crate::parse::{missing_field, RawDailyForecast};
use crate::time::UtcTime;
use crate::units::{
    condition_of, is_weather_code, Celsius, Conditions, Degrees, Metres, MetresPerSecond, Pascals,
    Percentage, UvIndex,
};

verus! {

/// Forecast for a particular day and the following night.
///
/// "Day" is from local dawn to dusk, "night" from dusk to dawn.
#[derive(Debug, Clone, Copy, PartialEq, Eq)]
pub struct Daily {
    /// Time at which this forecast is valid.
    pub time: UtcTime,
    /// Daytime forecast data: a past day, or a future day with the full set of data.
    pub day: Day,
    /// Nighttime forecast data.
    pub night: Night,
}

/// Prediction for a maximum or minimum temperature.
#[derive(Debug, Clone, Copy, PartialEq, Eq)]
pub struct TemperaturePrediction {
    /// Most likely extreme temperature for a particular day or night.
    pub most_likely: Celsius,
    /// 97.5% confidence upper bound of the predicted temperature.
    pub upper_bound: Celsius,
    /// 97.5% confidence lower bound of the predicted temperature.
    pub lower_bound: Celsius,
}

/// Daytime forecast data.
///
/// The first day of a daily series has already passed and lacks several data; future days have
/// all of them. Fields given "at midday" are at 12pm local time.
#[derive(Debug, Clone, Copy, PartialEq, Eq)]
pub enum Day {
    Past {
        /// Maximum air temperature at screen height.
        temperature_maximum: TemperaturePrediction,
        /// 97.5% confidence upper bound of the maximum feels-like temperature.
        temperature_feels_like_maximum_upper_bound: Celsius,
        /// 97.5% confidence lower bound of the maximum feels-like temperature.
        temperature_feels_like_maximum_lower_bound: Celsius,
        /// Mean wind speed over the 10 minutes to midday, 10m above ground.
        wind_speed: MetresPerSecond,
        /// Mean wind direction over the 10 minutes to midday.
        wind_direction: Degrees,
        /// Maximum 3-second mean wind speed over the 10 minutes to midday.
        wind_gust_speed: MetresPerSecond,
        /// Visibility at midday.
        visibility: Metres,
        /// Relative humidity at midday, at screen level.
        relative_humidity: Percentage,
        /// Air pressure at mean sea level at midday.
        pressure: Pascals,
    },
    Future {
        /// The most significant weather conditions.
        conditions: Conditions,
        /// Maximum air temperature at screen height.
        temperature_maximum: TemperaturePrediction,
        /// Maximum temperature it might feel like, taking into account humidity and wind chill
        /// but not radiation.
        temperature_feels_like_maximum: TemperaturePrediction,
        /// Maximum UV index.
        uv_index_maximum: UvIndex,
        /// Probability of any precipitation.
        precipitation_probability: Percentage,
        /// Probability of rain.
        rain_probability: Percentage,
        /// Probability of heavy rain, more than 1mm/hour.
        heavy_rain_probability: Percentage,
        /// Probability of snow.
        snow_probability: Percentage,
        /// Probability of heavy snow, more than 1mm/hour of liquid water equivalent.
        heavy_snow_probability: Percentage,
        /// Probability of hail.
        hail_probability: Percentage,
        /// Probability of lightning.
        lightning_probability: Percentage,
        /// Mean wind speed over the 10 minutes to midday, 10m above ground.
        wind_speed: MetresPerSecond,
        /// Mean wind direction over the 10 minutes to midday.
        wind_direction: Degrees,
        /// Maximum 3-second mean wind speed over the 10 minutes to midday.
        wind_gust_speed: MetresPerSecond,
        /// Visibility at midday.
        visibility: Metres,
        /// Relative humidity at midday, at screen level.
        relative_humidity: Percentage,
        /// Air pressure at mean sea level at midday.
        pressure: Pascals,
    },
}

/// Nighttime forecast data; fields given "at midnight" are at 12am local time.
#[derive(Debug, Clone, Copy, PartialEq, Eq)]
pub struct Night {
    /// The most significant weather conditions.
    pub conditions: Conditions,
    /// Minimum air temperature at screen height.
    pub temperature_minimum: TemperaturePrediction,
    /// Minimum feels-like air temperature.
    pub temperature_feels_like_minimum: TemperaturePrediction,
    /// Probability of any precipitation.
    pub precipitation_probability: Percentage,
    /// Probability of rain.
    pub rain_probability: Percentage,
    /// Probability of heavy rain, more than 1mm/hour.
    pub heavy_rain_probability: Percentage,
    /// Probability of snow.
    pub snow_probability: Percentage,
    /// Probability of heavy snow, more than 1mm/hour of liquid water equivalent.
    pub heavy_snow_probability: Percentage,
    /// Probability of hail.
    pub hail_probability: Percentage,
    /// Probability of lightning.
    pub lightning_probability: Percentage,
    /// Mean wind speed over the 10 minutes to midnight, 10m above ground.
    pub wind_speed: MetresPerSecond,
    /// Mean wind direction over the 10 minutes to midnight.
    pub wind_direction: Degrees,
    /// Maximum 3-second mean wind speed over the 10 minutes to midnight.
    pub wind_gust_speed: MetresPerSecond,
    /// Visibility at midnight.
    pub visibility: Metres,
    /// Relative humidity at midnight, at screen level.
    pub relative_humidity: Percentage,
    /// Air pressure at mean sea level at midnight.
    pub pressure: Pascals,
}

/// A temperature prediction from its three values.
pub open spec fn prediction(most_likely: u64, upper_bound: u64, lower_bound: u64) -> TemperaturePrediction {
    TemperaturePrediction {
        most_likely: Celsius(most_likely),
        upper_bound: Celsius(upper_bound),
        lower_bound: Celsius(lower_bound),
    }
}

fn make_prediction(most_likely: u64, upper_bound: u64, lower_bound: u64) -> (r: TemperaturePrediction)
    ensures
        r == prediction(most_likely, upper_bound, lower_bound),
{
    TemperaturePrediction {
        most_likely: Celsius(most_likely),
        upper_bound: Celsius(upper_bound),
        lower_bound: Celsius(lower_bound),
    }
}

/// Whether an entry describes a day that has passed.
///
/// The service leaves the maximum feels-like temperature out of the first, already elapsed day
/// of a series and fills it for every later day. This is what the service has been seen to do,
/// not a guarantee of its schema.
pub open spec fn is_past_day(rf: RawDailyForecast) -> bool {
    rf.day_max_feels_like_temp is None
}

/// Whether an entry holds every field that a future day needs.
pub open spec fn has_future_fields(rf: RawDailyForecast) -> bool {
    rf.day_significant_weather_code is Some
        && rf.max_uv_index is Some
        && rf.day_probability_of_precipitation is Some
        && rf.day_probability_of_rain is Some
        && rf.day_probability_of_heavy_rain is Some
        && rf.day_probability_of_snow is Some
        && rf.day_probability_of_heavy_snow is Some
        && rf.day_probability_of_hail is Some
        && rf.day_probability_of_sferics is Some
}

/// The past day that an entry describes.
pub open spec fn past_day(rf: RawDailyForecast) -> Day {
    Day::Past {
        temperature_maximum: prediction(
            rf.day_max_screen_temperature,
            rf.day_upper_bound_max_temp,
            rf.day_lower_bound_max_temp,
        ),
        temperature_feels_like_maximum_upper_bound: Celsius(rf.day_upper_bound_max_feels_like_temp),
        temperature_feels_like_maximum_lower_bound: Celsius(rf.day_lower_bound_max_feels_like_temp),
        wind_speed: MetresPerSecond(rf.midday_10m_wind_speed),
        wind_direction: Degrees(rf.midday_10m_wind_direction),
        wind_gust_speed: MetresPerSecond(rf.midday_10m_wind_gust),
        visibility: Metres(rf.midday_visibility),
        relative_humidity: Percentage(rf.midday_relative_humidity),
        pressure: Pascals(rf.midday_mslp),
    }
}

/// The future day that a complete entry describes.
pub open spec fn future_day(rf: RawDailyForecast) -> Day {
    Day::Future {
        conditions: condition_of(rf.day_significant_weather_code->Some_0),
        temperature_maximum: prediction(
            rf.day_max_screen_temperature,
            rf.day_upper_bound_max_temp,
            rf.day_lower_bound_max_temp,
        ),
        temperature_feels_like_maximum: prediction(
            rf.day_max_feels_like_temp->Some_0,
            rf.day_upper_bound_max_feels_like_temp,
            rf.day_lower_bound_max_feels_like_temp,
        ),
        uv_index_maximum: UvIndex(rf.max_uv_index->Some_0),
        precipitation_probability: Percentage(rf.day_probability_of_precipitation->Some_0),
        rain_probability: Percentage(rf.day_probability_of_rain->Some_0),
        heavy_rain_probability: Percentage(rf.day_probability_of_heavy_rain->Some_0),
        snow_probability: Percentage(rf.day_probability_of_snow->Some_0),
        heavy_snow_probability: Percentage(rf.day_probability_of_heavy_snow->Some_0),
        hail_probability: Percentage(rf.day_probability_of_hail->Some_0),
        lightning_probability: Percentage(rf.day_probability_of_sferics->Some_0),
        wind_speed: MetresPerSecond(rf.midday_10m_wind_speed),
        wind_direction: Degrees(rf.midday_10m_wind_direction),
        wind_gust_speed: MetresPerSecond(rf.midday_10m_wind_gust),
        visibility: Metres(rf.midday_visibility),
        relative_humidity: Percentage(rf.midday_relative_humidity),
        pressure: Pascals(rf.midday_mslp),
    }
}

/// The night that an entry describes.
pub open spec fn night_of(rf: RawDailyForecast) -> Night {
    Night {
        conditions: condition_of(rf.night_significant_weather_code),
        temperature_minimum: prediction(
            rf.night_min_screen_temperature,
            rf.night_upper_bound_min_temp,
            rf.night_lower_bound_min_temp,
        ),
        temperature_feels_like_minimum: prediction(
            rf.night_min_feels_like_temp,
            rf.night_upper_bound_min_feels_like_temp,
            rf.night_lower_bound_min_feels_like_temp,
        ),
        precipitation_probability: Percentage(rf.night_probability_of_precipitation),
        rain_probability: Percentage(rf.night_probability_of_rain),
        heavy_rain_probability: Percentage(rf.night_probability_of_heavy_rain),
        snow_probability: Percentage(rf.night_probability_of_snow),
        heavy_snow_probability: Percentage(rf.night_probability_of_heavy_snow),
        hail_probability: Percentage(rf.night_probability_of_hail),
        lightning_probability: Percentage(rf.night_probability_of_sferics),
        wind_speed: MetresPerSecond(rf.midnight_10m_wind_speed),
        wind_direction: Degrees(rf.midnight_10m_wind_direction),
        wind_gust_speed: MetresPerSecond(rf.midnight_10m_wind_gust),
        visibility: Metres(rf.midnight_visibility),
        relative_humidity: Percentage(rf.midnight_relative_humidity),
        pressure: Pascals(rf.midnight_mslp),
    }
}

/// The daily forecast that an entry converts to, or `None` where a future day lacks a field or a
/// weather code is unknown.
pub open spec fn daily_of(rf: RawDailyForecast) -> Option<Daily> {
    if !is_weather_code(rf.night_significant_weather_code) {
        None
    } else if is_past_day(rf) {
        Some(Daily { time: rf.time, day: past_day(rf), night: night_of(rf) })
    } else if has_future_fields(rf) && is_weather_code(rf.day_significant_weather_code->Some_0) {
        Some(Daily { time: rf.time, day: future_day(rf), night: night_of(rf) })
    } else {
        None
    }
}

/// Whether `r` is what converting `rf` gives. A future day without all its fields is a schema
/// error; otherwise an unknown day code is reported before an unknown night code.
pub open spec fn converts_daily(rf: RawDailyForecast, r: Result<Daily, ForecastError>) -> bool {
    match daily_of(rf) {
        Some(d) => r == Ok::<Daily, ForecastError>(d),
        None => match r {
            Ok(_) => false,
            Err(e) => if !is_past_day(rf) && !has_future_fields(rf) {
                e is Serde
            } else if !is_past_day(rf) && !is_weather_code(rf.day_significant_weather_code->Some_0) {
                e == ForecastError::UnknownWeatherCondition(rf.day_significant_weather_code->Some_0)
            } else {
                e == ForecastError::UnknownWeatherCondition(rf.night_significant_weather_code)
            },
        },
    }
}

impl Daily {
    /// Converts a raw entry, choosing the past or the future form of the day by whether the
    /// maximum feels-like temperature is present. The night always converts in full.
    pub fn try_from(rf: RawDailyForecast) -> (r: Result<Daily, ForecastError>)
        ensures
            converts_daily(rf, r),
    {
        let day = if rf.day_max_feels_like_temp.is_none() {
            Day::Past {
                temperature_maximum: make_prediction(
                    rf.day_max_screen_temperature,
                    rf.day_upper_bound_max_temp,
                    rf.day_lower_bound_max_temp,
                ),
                temperature_feels_like_maximum_upper_bound: Celsius(
                    rf.day_upper_bound_max_feels_like_temp,
                ),
                temperature_feels_like_maximum_lower_bound: Celsius(
                    rf.day_lower_bound_max_feels_like_temp,
                ),
                wind_speed: MetresPerSecond(rf.midday_10m_wind_speed),
                wind_direction: Degrees(rf.midday_10m_wind_direction),
                wind_gust_speed: MetresPerSecond(rf.midday_10m_wind_gust),
                visibility: Metres(rf.midday_visibility),
                relative_humidity: Percentage(rf.midday_relative_humidity),
                pressure: Pascals(rf.midday_mslp),
            }
        } else {
            let feels_like = match rf.day_max_feels_like_temp {
                Some(t) => t,
                None => return Err(ForecastError::Serde(missing_field("dayMaxFeelsLikeTemp"))),
            };
            let code = match rf.day_significant_weather_code {
                Some(c) => c,
                None => return Err(ForecastError::Serde(missing_field("daySignificantWeatherCode"))),
            };
            let uv = match rf.max_uv_index {
                Some(u) => u,
                None => return Err(ForecastError::Serde(missing_field("maxUvIndex"))),
            };
            let day_probability_of_precipitation = match rf.day_probability_of_precipitation {
                Some(p) => p,
                None => return Err(ForecastError::Serde(missing_field("dayProbabilityOfPrecipitation"))),
            };
            let day_probability_of_rain = match rf.day_probability_of_rain {
                Some(p) => p,
                None => return Err(ForecastError::Serde(missing_field("dayProbabilityOfRain"))),
            };
            let day_probability_of_heavy_rain = match rf.day_probability_of_heavy_rain {
                Some(p) => p,
                None => return Err(ForecastError::Serde(missing_field("dayProbabilityOfHeavyRain"))),
            };
            let day_probability_of_snow = match rf.day_probability_of_snow {
                Some(p) => p,
                None => return Err(ForecastError::Serde(missing_field("dayProbabilityOfSnow"))),
            };
            let day_probability_of_heavy_snow = match rf.day_probability_of_heavy_snow {
                Some(p) => p,
                None => return Err(ForecastError::Serde(missing_field("dayProbabilityOfHeavySnow"))),
            };
            let day_probability_of_hail = match rf.day_probability_of_hail {
                Some(p) => p,
                None => return Err(ForecastError::Serde(missing_field("dayProbabilityOfHail"))),
            };
            let day_probability_of_sferics = match rf.day_probability_of_sferics {
                Some(p) => p,
                None => return Err(ForecastError::Serde(missing_field("dayProbabilityOfSferics"))),
            };
            let conditions = match Conditions::try_from(code) {
                Ok(c) => c,
                Err(e) => return Err(e),
            };
            Day::Future {
                conditions: conditions,
                temperature_maximum: make_prediction(
                    rf.day_max_screen_temperature,
                    rf.day_upper_bound_max_temp,
                    rf.day_lower_bound_max_temp,
                ),
                temperature_feels_like_maximum: make_prediction(
                    feels_like,
                    rf.day_upper_bound_max_feels_like_temp,
                    rf.day_lower_bound_max_feels_like_temp,
                ),
                uv_index_maximum: UvIndex(uv),
                precipitation_probability: Percentage(day_probability_of_precipitation),
                rain_probability: Percentage(day_probability_of_rain),
                heavy_rain_probability: Percentage(day_probability_of_heavy_rain),
                snow_probability: Percentage(day_probability_of_snow),
                heavy_snow_probability: Percentage(day_probability_of_heavy_snow),
                hail_probability: Percentage(day_probability_of_hail),
                lightning_probability: Percentage(day_probability_of_sferics),
                wind_speed: MetresPerSecond(rf.midday_10m_wind_speed),
                wind_direction: Degrees(rf.midday_10m_wind_direction),
                wind_gust_speed: MetresPerSecond(rf.midday_10m_wind_gust),
                visibility: Metres(rf.midday_visibility),
                relative_humidity: Percentage(rf.midday_relative_humidity),
                pressure: Pascals(rf.midday_mslp),
            }
        };
        let night_conditions = match Conditions::try_from(rf.night_significant_weather_code) {
            Ok(c) => c,
            Err(e) => return Err(e),
        };
        let night = Night {
            conditions: night_conditions,
            temperature_minimum: make_prediction(
                rf.night_min_screen_temperature,
                rf.night_upper_bound_min_temp,
                rf.night_lower_bound_min_temp,
            ),
            temperature_feels_like_minimum: make_prediction(
                rf.night_min_feels_like_temp,
                rf.night_upper_bound_min_feels_like_temp,
                rf.night_lower_bound_min_feels_like_temp,
            ),
            precipitation_probability: Percentage(rf.night_probability_of_precipitation),
            rain_probability: Percentage(rf.night_probability_of_rain),
            heavy_rain_probability: Percentage(rf.night_probability_of_heavy_rain),
            snow_probability: Percentage(rf.night_probability_of_snow),
            heavy_snow_probability: Percentage(rf.night_probability_of_heavy_snow),
            hail_probability: Percentage(rf.night_probability_of_hail),
            lightning_probability: Percentage(rf.night_probability_of_sferics),
            wind_speed: MetresPerSecond(rf.midnight_10m_wind_speed),
            wind_direction: Degrees(rf.midnight_10m_wind_direction),
            wind_gust_speed: MetresPerSecond(rf.midnight_10m_wind_gust),
            visibility: Metres(rf.midnight_visibility),
            relative_humidity: Percentage(rf.midnight_relative_humidity),
            pressure: Pascals(rf.midnight_mslp),
        };
        Ok(Daily { time: rf.time, day, night })
    }
}

/// Converting a raw entry is deterministic: two conversions of the same entry that succeed, or
/// fail on a weather code, give the same result.
pub proof fn lemma_daily_conversion_deterministic(
    rf: RawDailyForecast,
    r1: Result<Daily, ForecastError>,
    r2: Result<Daily, ForecastError>,
)
    requires
        converts_daily(rf, r1),
        converts_daily(rf, r2),
        !(r1 matches Err(e) && e is Serde),
    ensures
        r1 == r2,
{
}

} // verus!
