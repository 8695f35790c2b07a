//! Typed access to Met Office Global Spot site-specific forecasts.
//!
//! The library builds the query URL for a forecast location and turns the JSON document that the
//! service answers with into a validated, unit-typed model. It performs no I/O itself: bring
//! your own HTTP client, add the `apikey` header it needs, and hand the received text or bytes
//! to [`Forecast`]'s parsing functions.
//!
//! Physical quantities are carried as the bit pattern of an IEEE-754 binary64 value, so that
//! every decision the library takes about them is stated over integers.
pub mod daily;
mod error;
mod forecast;
mod hourly;
pub mod json;
pub mod parse;
mod sealed;
mod three_hourly;
pub mod time;
pub mod units;

pub use daily::Daily;
pub use error::ForecastError;
pub use forecast::{forecast_url, Forecast, Granularity};
pub use hourly::Hourly;
pub use sealed::{Sealed, TimePeriod};
pub use three_hourly::ThreeHourly;
pub use units::{Coordinates, Latitude, Longitude};
