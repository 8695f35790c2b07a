use vstd::prelude::*;

verus! {

/// Every way in which building or reading a forecast can fail.
#[derive(Debug)]
pub enum ForecastError {
    /// The document is not JSON of the expected shape.
    Serde(serde_json::Error),
    /// A latitude or longitude lies outside its range.
    GeographicDegreesOutOfBounds,
    /// A significant weather code that names no known condition.
    UnknownWeatherCondition(i8),
}

impl ForecastError {
    /// Short human-readable description of the kind of error.
    pub fn message(&self) -> (r: &'static str)
        ensures
            r@ == error_message(*self),
    {
        match self {
            ForecastError::Serde(_) => "JSON parsing error",
            ForecastError::GeographicDegreesOutOfBounds => "invalid geographic degrees",
            ForecastError::UnknownWeatherCondition(_) => "unknown significant weather code",
        }
    }
}

/// The description of each kind of error.
pub open spec fn error_message(e: ForecastError) -> Seq<char> {
    match e {
        ForecastError::Serde(_) => "JSON parsing error"@,
        ForecastError::GeographicDegreesOutOfBounds => "invalid geographic degrees"@,
        ForecastError::UnknownWeatherCondition(_) => "unknown significant weather code"@,
    }
}

} // verus!
