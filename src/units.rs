//! Newtype wrappers for forecast units.
//!
//! A decimal quantity is held as the bit pattern of its IEEE-754 binary64 value. Nothing here
//! defines arithmetic across units.
use vstd::prelude::*;
use crate::error::ForecastError;

verus! {

/// Mask that clears the sign bit of a binary64 bit pattern.
pub const MAGNITUDE_MASK: u64 = 0x7fff_ffff_ffff_ffff;

/// Bit pattern of the binary64 value 90.0.
pub const NINETY_DEGREES: u64 = 0x4056_8000_0000_0000;

/// Bit pattern of the binary64 value 180.0.
pub const ONE_EIGHTY_DEGREES: u64 = 0x4066_8000_0000_0000;

/// Whether the binary64 value with bit pattern `bits` lies in `[-limit, limit]`, for the bit
/// pattern `limit` of a positive finite value.
///
/// Clearing the sign bit gives the pattern of the absolute value, and on non-negative values the
/// order of bit patterns is the order of the values; every NaN pattern lies above that of
/// infinity, so a NaN is in no range.
pub open spec fn within_degrees(bits: u64, limit: u64) -> bool {
    bits & MAGNITUDE_MASK <= limit
}

/// Whether `bits` is the pattern of a latitude: a value in `[-90, 90]`.
pub open spec fn is_latitude(bits: u64) -> bool {
    within_degrees(bits, NINETY_DEGREES)
}

/// Whether `bits` is the pattern of a longitude: a value in `[-180, 180]`.
pub open spec fn is_longitude(bits: u64) -> bool {
    within_degrees(bits, ONE_EIGHTY_DEGREES)
}

/// Latitude in decimal degrees in the WGS 84 reference system.
#[derive(Debug, Clone, Copy, PartialEq, Eq)]
pub struct Latitude(u64);

impl View for Latitude {
    type V = u64;

    closed spec fn view(&self) -> u64 {
        self.0
    }
}

impl Latitude {
    #[verifier::type_invariant]
    spec fn in_bounds(self) -> bool {
        is_latitude(self.0)
    }

    /// Constructs a latitude from the bit pattern of its decimal degrees.
    ///
    /// Fails unless the value lies within ±90°.
    pub fn new(d: u64) -> (r: Result<Latitude, ForecastError>)
        ensures
            r is Ok <==> is_latitude(d),
            r matches Ok(l) ==> l@ == d,
            r matches Err(e) ==> e is GeographicDegreesOutOfBounds,
    {
        if d & MAGNITUDE_MASK <= NINETY_DEGREES {
            Ok(Latitude(d))
        } else {
            Err(ForecastError::GeographicDegreesOutOfBounds)
        }
    }

    /// The bit pattern of the decimal degrees.
    pub fn as_float(&self) -> (r: u64)
        ensures
            r == self@,
            is_latitude(r),
    {
        proof {
            use_type_invariant(self);
        }
        self.0
    }
}

/// Longitude in decimal degrees in the WGS 84 reference system.
#[derive(Debug, Clone, Copy, PartialEq, Eq)]
pub struct Longitude(u64);

impl View for Longitude {
    type V = u64;

    closed spec fn view(&self) -> u64 {
        self.0
    }
}

impl Longitude {
    #[verifier::type_invariant]
    spec fn in_bounds(self) -> bool {
        is_longitude(self.0)
    }

    /// Constructs a longitude from the bit pattern of its decimal degrees.
    ///
    /// Fails unless the value lies within ±180°.
    pub fn new(d: u64) -> (r: Result<Longitude, ForecastError>)
        ensures
            r is Ok <==> is_longitude(d),
            r matches Ok(l) ==> l@ == d,
            r matches Err(e) ==> e is GeographicDegreesOutOfBounds,
    {
        if d & MAGNITUDE_MASK <= ONE_EIGHTY_DEGREES {
            Ok(Longitude(d))
        } else {
            Err(ForecastError::GeographicDegreesOutOfBounds)
        }
    }

    /// The bit pattern of the decimal degrees.
    pub fn as_float(&self) -> (r: u64)
        ensures
            r == self@,
            is_longitude(r),
    {
        proof {
            use_type_invariant(self);
        }
        self.0
    }
}

/// Coordinates in the WGS 84 coordinate reference system.
#[derive(Debug, Clone, Copy, PartialEq, Eq)]
pub struct Coordinates {
    pub latitude: Latitude,
    pub longitude: Longitude,
    pub altitude: Metres,
}

impl Coordinates {
    /// Builds coordinates from `[longitude, latitude, altitude]`, the order in which GeoJSON
    /// writes a position (longitude first).
    pub fn try_from(value: [u64; 3]) -> (r: Result<Coordinates, ForecastError>)
        ensures
            r is Ok <==> is_longitude(value@[0]) && is_latitude(value@[1]),
            r matches Ok(c) ==> c.longitude@ == value@[0] && c.latitude@ == value@[1]
                && c.altitude == Metres(value@[2]),
            r matches Err(e) ==> e is GeographicDegreesOutOfBounds,
    {
        let lon = value[0];
        let lat = value[1];
        let alt = value[2];
        let latitude = match Latitude::new(lat) {
            Ok(l) => l,
            Err(e) => return Err(e),
        };
        let longitude = match Longitude::new(lon) {
            Ok(l) => l,
            Err(e) => return Err(e),
        };
        Ok(Coordinates { latitude, longitude, altitude: Metres(alt) })
    }
}

impl core::convert::TryFrom<[u64; 3]> for Coordinates {
    type Error = ForecastError;

    fn try_from(value: [u64; 3]) -> (r: Result<Coordinates, ForecastError>)
        ensures
            r is Ok <==> is_longitude(value@[0]) && is_latitude(value@[1]),
            r matches Ok(c) ==> c.longitude@ == value@[0] && c.latitude@ == value@[1]
                && c.altitude == Metres(value@[2]),
            r matches Err(e) ==> e is GeographicDegreesOutOfBounds,
    {
        Coordinates::try_from(value)
    }
}

impl vstd::std_specs::convert::TryFromSpecImpl<[u64; 3]> for Coordinates {
    open spec fn obeys_try_from_spec() -> bool {
        true
    }

    closed spec fn try_from_spec(value: [u64; 3]) -> Result<Coordinates, ForecastError> {
        if is_longitude(value@[0]) && is_latitude(value@[1]) {
            Ok(
                Coordinates {
                    latitude: Latitude(value@[1]),
                    longitude: Longitude(value@[0]),
                    altitude: Metres(value@[2]),
                },
            )
        } else {
            Err(ForecastError::GeographicDegreesOutOfBounds)
        }
    }
}

/// A percentage, as the bit pattern of its binary64 value.
#[derive(Debug, Clone, Copy, PartialEq, Eq)]
pub struct Percentage(pub u64);

/// A distance in metres, as the bit pattern of its binary64 value.
#[derive(Debug, Clone, Copy, PartialEq, Eq)]
pub struct Metres(pub u64);

/// A speed in metres per second, as the bit pattern of its binary64 value.
#[derive(Debug, Clone, Copy, PartialEq, Eq)]
pub struct MetresPerSecond(pub u64);

/// A depth in millimetres, as the bit pattern of its binary64 value.
#[derive(Debug, Clone, Copy, PartialEq, Eq)]
pub struct Millimetres(pub u64);

/// A rate in millimetres per hour, as the bit pattern of its binary64 value.
#[derive(Debug, Clone, Copy, PartialEq, Eq)]
pub struct MillimetresPerHour(pub u64);

/// A temperature in degrees Celsius, as the bit pattern of its binary64 value.
#[derive(Debug, Clone, Copy, PartialEq, Eq)]
pub struct Celsius(pub u64);

/// An air pressure in pascals.
#[derive(Debug, Clone, Copy, PartialEq, Eq)]
pub struct Pascals(pub u32);

/// Degrees representing an azimuth, as the bit pattern of its binary64 value.
///
/// This represents a direction, from the perspective of a weather forecast location, relative to
/// north. For example, 90 degrees is due east.
#[derive(Debug, Clone, Copy, PartialEq, Eq)]
pub struct Degrees(pub u64);

/// UV index value.
///
/// A unitless measure representing the strength of solar radiation.
#[derive(Debug, Clone, Copy, PartialEq, Eq, PartialOrd, Ord)]
pub struct UvIndex(pub u8);

/// The safety advice for a UV index: one message for 0 to 2, one for 3 to 5, one from 6 up.
pub open spec fn uv_advice(i: u8) -> Seq<char> {
    if i <= 2 {
        "No protection required. You can safely stay outside."@
    } else if i <= 5 {
        "Seek shade during midday hours, cover up and wear sunscreen."@
    } else {
        "Avoid being outside during midday hours. Shirt, sunscreen and hat are essential."@
    }
}

/// Advisory tier of a UV index.
#[derive(Debug, Clone, Copy, PartialEq, Eq)]
pub enum UvTier {
    /// 0: no risk.
    NoRisk,
    /// 1 to 2.
    Low,
    /// 3 to 5.
    Moderate,
    /// 6 to 7.
    High,
    /// 8 to 10.
    VeryHigh,
    /// 11 and above.
    Extreme,
}

/// The tier of each UV index value.
pub open spec fn uv_tier(i: u8) -> UvTier {
    if i == 0 {
        UvTier::NoRisk
    } else if i <= 2 {
        UvTier::Low
    } else if i <= 5 {
        UvTier::Moderate
    } else if i <= 7 {
        UvTier::High
    } else if i <= 10 {
        UvTier::VeryHigh
    } else {
        UvTier::Extreme
    }
}

impl UvIndex {
    /// Advisory tier of the index, a function of its value alone.
    pub fn tier(&self) -> (r: UvTier)
        ensures
            r == uv_tier(self.0),
    {
        if self.0 == 0 {
            UvTier::NoRisk
        } else if self.0 <= 2 {
            UvTier::Low
        } else if self.0 <= 5 {
            UvTier::Moderate
        } else if self.0 <= 7 {
            UvTier::High
        } else if self.0 <= 10 {
            UvTier::VeryHigh
        } else {
            UvTier::Extreme
        }
    }

    /// Safety advice message for the given UV index.
    pub fn advice_message(&self) -> (r: &'static str)
        ensures
            r@ == uv_advice(self.0),
    {
        if self.0 <= 2 {
            "No protection required. You can safely stay outside."
        } else if self.0 <= 5 {
            "Seek shade during midday hours, cover up and wear sunscreen."
        } else {
            "Avoid being outside during midday hours. Shirt, sunscreen and hat are essential."
        }
    }
}




/// Most significant weather conditions.
///
/// Derived from a "significant weather code", `Conditions` can be thought of as a summary
/// description for the conditions at a particular time. Codes for the day and the night variant
/// of a condition share one description but stay distinct variants.
#[derive(Debug, Clone, Copy, PartialEq, Eq)]
pub enum Conditions {
    TraceRain,
    ClearNight,
    SunnyDay,
    PartlyCloudyNight,
    PartlyCloudyDay,
    Mist,
    Fog,
    Cloudy,
    Overcast,
    LightRainShowerNight,
    LightRainShowerDay,
    Drizzle,
    LightRain,
    HeavyRainShowerNight,
    HeavyRainShowerDay,
    HeavyRain,
    SleetShowerNight,
    SleetShowerDay,
    Sleet,
    HailShowerNight,
    HailShowerDay,
    Hail,
    LightSnowShowerNight,
    LightSnowShowerDay,
    LightSnow,
    HeavySnowShowerNight,
    HeavySnowShowerDay,
    HeavySnow,
    ThunderShowerNight,
    ThunderShowerDay,
    Thunder,
}

/// Whether `code` is a significant weather code: one of -1 to 30, where 4 is not used.
pub open spec fn is_weather_code(code: i8) -> bool {
    -1 <= code <= 30 && code != 4
}

/// The significant weather code of each condition.
pub open spec fn weather_code(c: Conditions) -> i8 {
    match c {
        Conditions::TraceRain => -1i8,
        Conditions::ClearNight => 0,
        Conditions::SunnyDay => 1,
        Conditions::PartlyCloudyNight => 2,
        Conditions::PartlyCloudyDay => 3,
        Conditions::Mist => 5,
        Conditions::Fog => 6,
        Conditions::Cloudy => 7,
        Conditions::Overcast => 8,
        Conditions::LightRainShowerNight => 9,
        Conditions::LightRainShowerDay => 10,
        Conditions::Drizzle => 11,
        Conditions::LightRain => 12,
        Conditions::HeavyRainShowerNight => 13,
        Conditions::HeavyRainShowerDay => 14,
        Conditions::HeavyRain => 15,
        Conditions::SleetShowerNight => 16,
        Conditions::SleetShowerDay => 17,
        Conditions::Sleet => 18,
        Conditions::HailShowerNight => 19,
        Conditions::HailShowerDay => 20,
        Conditions::Hail => 21,
        Conditions::LightSnowShowerNight => 22,
        Conditions::LightSnowShowerDay => 23,
        Conditions::LightSnow => 24,
        Conditions::HeavySnowShowerNight => 25,
        Conditions::HeavySnowShowerDay => 26,
        Conditions::HeavySnow => 27,
        Conditions::ThunderShowerNight => 28,
        Conditions::ThunderShowerDay => 29,
        Conditions::Thunder => 30,
    }
}

/// The short human description of each condition.
pub open spec fn condition_description(c: Conditions) -> Seq<char> {
    match c {
        Conditions::TraceRain => "Trace of rain"@,
        Conditions::ClearNight => "Clear"@,
        Conditions::SunnyDay => "Sunny"@,
        Conditions::PartlyCloudyNight => "Partly Cloudy"@,
        Conditions::PartlyCloudyDay => "Partly Cloudy"@,
        Conditions::Mist => "Mist"@,
        Conditions::Fog => "Fog"@,
        Conditions::Cloudy => "Cloudy"@,
        Conditions::Overcast => "Overcast"@,
        Conditions::LightRainShowerNight => "Light rain shower"@,
        Conditions::LightRainShowerDay => "Light rain shower"@,
        Conditions::Drizzle => "Drizzle"@,
        Conditions::LightRain => "Light rain"@,
        Conditions::HeavyRainShowerNight => "Heavy rain shower"@,
        Conditions::HeavyRainShowerDay => "Heavy rain shower"@,
        Conditions::HeavyRain => "Heavy rain"@,
        Conditions::SleetShowerNight => "Sleet shower"@,
        Conditions::SleetShowerDay => "Sleet shower"@,
        Conditions::Sleet => "Sleet"@,
        Conditions::HailShowerNight => "Hail shower"@,
        Conditions::HailShowerDay => "Hail shower"@,
        Conditions::Hail => "Hail"@,
        Conditions::LightSnowShowerNight => "Light snow shower"@,
        Conditions::LightSnowShowerDay => "Light snow shower"@,
        Conditions::LightSnow => "Light snow"@,
        Conditions::HeavySnowShowerNight => "Heavy snow shower"@,
        Conditions::HeavySnowShowerDay => "Heavy snow shower"@,
        Conditions::HeavySnow => "Heavy snow"@,
        Conditions::ThunderShowerNight => "Thunder shower"@,
        Conditions::ThunderShowerDay => "Thunder shower"@,
        Conditions::Thunder => "Thunder"@,
    }
}

/// The condition that a known significant weather code names; `TraceRain` stands in for codes
/// that name none.
pub open spec fn condition_of(code: i8) -> Conditions {
    match code {
        -1 => Conditions::TraceRain,
        0 => Conditions::ClearNight,
        1 => Conditions::SunnyDay,
        2 => Conditions::PartlyCloudyNight,
        3 => Conditions::PartlyCloudyDay,
        5 => Conditions::Mist,
        6 => Conditions::Fog,
        7 => Conditions::Cloudy,
        8 => Conditions::Overcast,
        9 => Conditions::LightRainShowerNight,
        10 => Conditions::LightRainShowerDay,
        11 => Conditions::Drizzle,
        12 => Conditions::LightRain,
        13 => Conditions::HeavyRainShowerNight,
        14 => Conditions::HeavyRainShowerDay,
        15 => Conditions::HeavyRain,
        16 => Conditions::SleetShowerNight,
        17 => Conditions::SleetShowerDay,
        18 => Conditions::Sleet,
        19 => Conditions::HailShowerNight,
        20 => Conditions::HailShowerDay,
        21 => Conditions::Hail,
        22 => Conditions::LightSnowShowerNight,
        23 => Conditions::LightSnowShowerDay,
        24 => Conditions::LightSnow,
        25 => Conditions::HeavySnowShowerNight,
        26 => Conditions::HeavySnowShowerDay,
        27 => Conditions::HeavySnow,
        28 => Conditions::ThunderShowerNight,
        29 => Conditions::ThunderShowerDay,
        30 => Conditions::Thunder,
        _ => Conditions::TraceRain,
    }
}

impl Conditions {
    /// Decodes a significant weather code.
    ///
    /// Fails, carrying the code, on a code that names no condition (4, or one outside -1 to 30).
    pub fn try_from(code: i8) -> (r: Result<Conditions, ForecastError>)
        ensures
            r is Ok <==> is_weather_code(code),
            r matches Ok(c) ==> weather_code(c) == code && c == condition_of(code),
            r is Err ==> r == Err::<Conditions, ForecastError>(
                ForecastError::UnknownWeatherCondition(code),
            ),
    {
        match code {
            -1 => Ok(Conditions::TraceRain),
            0 => Ok(Conditions::ClearNight),
            1 => Ok(Conditions::SunnyDay),
            2 => Ok(Conditions::PartlyCloudyNight),
            3 => Ok(Conditions::PartlyCloudyDay),
            5 => Ok(Conditions::Mist),
            6 => Ok(Conditions::Fog),
            7 => Ok(Conditions::Cloudy),
            8 => Ok(Conditions::Overcast),
            9 => Ok(Conditions::LightRainShowerNight),
            10 => Ok(Conditions::LightRainShowerDay),
            11 => Ok(Conditions::Drizzle),
            12 => Ok(Conditions::LightRain),
            13 => Ok(Conditions::HeavyRainShowerNight),
            14 => Ok(Conditions::HeavyRainShowerDay),
            15 => Ok(Conditions::HeavyRain),
            16 => Ok(Conditions::SleetShowerNight),
            17 => Ok(Conditions::SleetShowerDay),
            18 => Ok(Conditions::Sleet),
            19 => Ok(Conditions::HailShowerNight),
            20 => Ok(Conditions::HailShowerDay),
            21 => Ok(Conditions::Hail),
            22 => Ok(Conditions::LightSnowShowerNight),
            23 => Ok(Conditions::LightSnowShowerDay),
            24 => Ok(Conditions::LightSnow),
            25 => Ok(Conditions::HeavySnowShowerNight),
            26 => Ok(Conditions::HeavySnowShowerDay),
            27 => Ok(Conditions::HeavySnow),
            28 => Ok(Conditions::ThunderShowerNight),
            29 => Ok(Conditions::ThunderShowerDay),
            30 => Ok(Conditions::Thunder),
            _ => Err(ForecastError::UnknownWeatherCondition(code)),
        }
    }

    /// Short human description of the conditions.
    pub fn description(&self) -> (r: &'static str)
        ensures
            r@ == condition_description(*self),
    {
        match self {
            Conditions::TraceRain => "Trace of rain",
            Conditions::ClearNight => "Clear",
            Conditions::SunnyDay => "Sunny",
            Conditions::PartlyCloudyNight => "Partly Cloudy",
            Conditions::PartlyCloudyDay => "Partly Cloudy",
            Conditions::Mist => "Mist",
            Conditions::Fog => "Fog",
            Conditions::Cloudy => "Cloudy",
            Conditions::Overcast => "Overcast",
            Conditions::LightRainShowerNight => "Light rain shower",
            Conditions::LightRainShowerDay => "Light rain shower",
            Conditions::Drizzle => "Drizzle",
            Conditions::LightRain => "Light rain",
            Conditions::HeavyRainShowerNight => "Heavy rain shower",
            Conditions::HeavyRainShowerDay => "Heavy rain shower",
            Conditions::HeavyRain => "Heavy rain",
            Conditions::SleetShowerNight => "Sleet shower",
            Conditions::SleetShowerDay => "Sleet shower",
            Conditions::Sleet => "Sleet",
            Conditions::HailShowerNight => "Hail shower",
            Conditions::HailShowerDay => "Hail shower",
            Conditions::Hail => "Hail",
            Conditions::LightSnowShowerNight => "Light snow shower",
            Conditions::LightSnowShowerDay => "Light snow shower",
            Conditions::LightSnow => "Light snow",
            Conditions::HeavySnowShowerNight => "Heavy snow shower",
            Conditions::HeavySnowShowerDay => "Heavy snow shower",
            Conditions::HeavySnow => "Heavy snow",
            Conditions::ThunderShowerNight => "Thunder shower",
            Conditions::ThunderShowerDay => "Thunder shower",
            Conditions::Thunder => "Thunder",
        }
    }
}

impl core::convert::TryFrom<i8> for Conditions {
    type Error = ForecastError;

    fn try_from(code: i8) -> (r: Result<Conditions, ForecastError>)
        ensures
            r is Ok <==> is_weather_code(code),
            r matches Ok(c) ==> c == condition_of(code),
            r is Err ==> r == Err::<Conditions, ForecastError>(
                ForecastError::UnknownWeatherCondition(code),
            ),
    {
        Conditions::try_from(code)
    }
}

impl vstd::std_specs::convert::TryFromSpecImpl<i8> for Conditions {
    open spec fn obeys_try_from_spec() -> bool {
        true
    }

    open spec fn try_from_spec(code: i8) -> Result<Conditions, ForecastError> {
        if is_weather_code(code) {
            Ok(condition_of(code))
        } else {
            Err(ForecastError::UnknownWeatherCondition(code))
        }
    }
}

/// Each known code decodes to one condition, and no two codes to the same one: the condition
/// that a code decodes to is the only one with that code.
pub proof fn lemma_weather_codes_distinct(c1: Conditions, c2: Conditions)
    ensures
        weather_code(c1) == weather_code(c2) <==> c1 == c2,
        is_weather_code(weather_code(c1)),
{
}

} // verus!
