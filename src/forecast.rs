use vstd::prelude::*;
use crate::daily::{converts_daily, daily_of, Daily};
use crate::error::ForecastError;
use crate::hourly::{converts_hourly, hourly_of, Hourly};
use crate::json::{
    as_elements, as_float_bits, get_member, json_of_bytes, json_of_text, json_view, member,
    parse_bytes, parse_text, JsonView,
};
use crate::parse::{
    daily_record, decimal_member, hourly_record, invalid_field, missing_field, read_decimal,
    read_text, read_time,
    text_member, three_hourly_record, time_member, RawDailyForecast, RawHourlyForecast,
    RawThreeHourlyForecast,
};
use crate::sealed::TimePeriod;
use crate::three_hourly::{converts_three_hourly, three_hourly_of, ThreeHourly};
use crate::time::UtcTime;
use crate::units::{is_latitude, is_longitude, Coordinates, Metres};

verus! {

/// A forecast for one location: where it is, when the model ran, and its predictions in the
/// order the service gave them.
#[derive(Debug)]
pub struct Forecast<T: TimePeriod> {
    /// Forecast location name.
    pub location_name: String,
    /// Weather station location in the WGS 84 geographic coordinate reference system.
    pub coordinates: Coordinates,
    /// Weather station distance from the requested location.
    pub requested_point_distance: Metres,
    /// Time at which the weather model was run.
    pub predictions_made_at: UtcTime,
    /// Forecast predictions.
    pub predictions: Vec<T>,
}

/// The three time periods that forecasts are offered for.
#[derive(Debug, Clone, Copy, PartialEq, Eq)]
pub enum Granularity {
    Hourly,
    ThreeHourly,
    Daily,
}

pub const HOURLY_URL: &'static str = "https://data.hub.api.metoffice.gov.uk/sitespecific/v0/point/hourly";

pub const THREE_HOURLY_URL: &'static str =
    "https://data.hub.api.metoffice.gov.uk/sitespecific/v0/point/three-hourly";

pub const DAILY_URL: &'static str = "https://data.hub.api.metoffice.gov.uk/sitespecific/v0/point/daily";

/// The endpoint of each time period.
pub open spec fn endpoint_of(g: Granularity) -> Seq<char> {
    match g {
        Granularity::Hourly => HOURLY_URL@,
        Granularity::ThreeHourly => THREE_HOURLY_URL@,
        Granularity::Daily => DAILY_URL@,
    }
}

/// The query of a forecast request: the location, then the data source, no parameter
/// metadata, and the location's name.
pub open spec fn query_of(latitude: Seq<char>, longitude: Seq<char>) -> Seq<(Seq<char>, Seq<char>)> {
    seq![
        ("latitude"@, latitude),
        ("longitude"@, longitude),
        ("source"@, "BD1"@),
        ("excludeParameterMetadata"@, "true"@),
        ("includeLocationName"@, "true"@),
    ]
}

/// The serialized URL that `url` builds from a base URL and query pairs, or `None` where the
/// base does not parse.
pub uninterp spec fn url_with_params(base: Seq<char>, query: Seq<(Seq<char>, Seq<char>)>) -> Option<
    Seq<char>,
>;

/// Relies on `url::Url::parse_with_params`: parses `base` and appends the pairs, form-encoded, as
/// its query; the URL is handed back serialized.
#[verifier::external_body]
fn parse_with_params(base: &str, query: &Vec<(String, String)>) -> (r: Option<String>)
    ensures
        match url_with_params(base@, query@.map_values(|p: (String, String)| (p.0@, p.1@))) {
            Some(u) => r matches Some(s) && s@ == u,
            None => r is None,
        },
{
    url::Url::parse_with_params(base, query.iter()).ok().map(String::from)
}

fn endpoint(g: Granularity) -> (r: &'static str)
    ensures
        r@ == endpoint_of(g),
{
    match g {
        Granularity::Hourly => HOURLY_URL,
        Granularity::ThreeHourly => THREE_HOURLY_URL,
        Granularity::Daily => DAILY_URL,
    }
}

fn pair(key: &str, value: &str) -> (r: (String, String))
    ensures
        r.0@ == key@,
        r.1@ == value@,
{
    (key.to_owned(), value.to_owned())
}

/// The request URL for a forecast of the given time period at a location, given as the decimal
/// text of its latitude and longitude.
///
/// `None` only where the `url` crate cannot parse the endpoint, which is fixed.
pub fn forecast_url(g: Granularity, latitude: &str, longitude: &str) -> (r: Option<String>)
    ensures
        match url_with_params(endpoint_of(g), query_of(latitude@, longitude@)) {
            Some(u) => r matches Some(s) && s@ == u,
            None => r is None,
        },
{
    let mut query: Vec<(String, String)> = Vec::new();
    query.push(pair("latitude", latitude));
    query.push(pair("longitude", longitude));
    query.push(pair("source", "BD1"));
    query.push(pair("excludeParameterMetadata", "true"));
    query.push(pair("includeLocationName", "true"));
    assert(query@.map_values(|p: (String, String)| (p.0@, p.1@)) =~= query_of(latitude@, longitude@));
    parse_with_params(endpoint(g), &query)
}

/// The first feature of a document.
pub open spec fn feature_of(doc: JsonView) -> Option<JsonView> {
    match member(doc, "features"@) {
        Some(JsonView::Array(s)) => if s.len() > 0 {
            Some(s[0])
        } else {
            None
        },
        _ => None,
    }
}

/// The properties of the first feature.
pub open spec fn properties_of(doc: JsonView) -> Option<JsonView> {
    match feature_of(doc) {
        Some(f) => member(f, "properties"@),
        None => None,
    }
}

/// The bit pattern of a number's value.
pub open spec fn number_bits(v: JsonView) -> Option<u64> {
    match v {
        JsonView::Number { float_bits, .. } => Some(float_bits),
        _ => None,
    }
}

/// The position of the first feature: `[longitude, latitude, altitude]`.
pub open spec fn position_of(doc: JsonView) -> Option<Seq<u64>> {
    match feature_of(doc) {
        Some(f) => match member(f, "geometry"@) {
            Some(g) => match member(g, "coordinates"@) {
                Some(JsonView::Array(s)) => if s.len() == 3 && number_bits(s[0]) is Some
                    && number_bits(s[1]) is Some && number_bits(s[2]) is Some {
                    Some(seq![number_bits(s[0])->Some_0, number_bits(s[1])->Some_0, number_bits(s[2])->Some_0])
                } else {
                    None
                },
                _ => None,
            },
            None => None,
        },
        None => None,
    }
}

/// What a document says of its location, outside the time series.
pub struct Envelope {
    pub location_name: Seq<char>,
    pub position: Seq<u64>,
    pub requested_point_distance: u64,
    pub predictions_made_at: UtcTime,
}

/// The envelope of a document, or `None` where a part is missing, of the wrong type, or the
/// position lies out of bounds.
pub open spec fn envelope_of(doc: JsonView) -> Option<Envelope> {
    match (properties_of(doc), position_of(doc)) {
        (Some(p), Some(pos)) => match member(p, "location"@) {
            Some(loc) => if text_member(loc, "name"@) is Some
                && decimal_member(p, "requestPointDistance"@) is Some
                && time_member(p, "modelRunDate"@) is Some
                && is_longitude(pos[0]) && is_latitude(pos[1]) {
                Some(Envelope {
                    location_name: text_member(loc, "name"@)->Some_0,
                    position: pos,
                    requested_point_distance: decimal_member(p, "requestPointDistance"@)->Some_0,
                    predictions_made_at: time_member(p, "modelRunDate"@)->Some_0,
                })
            } else {
                None
            },
            None => None,
        },
        _ => None,
    }
}

/// The entries of the time series of a document.
pub open spec fn time_series_of(doc: JsonView) -> Option<Seq<JsonView>> {
    match properties_of(doc) {
        Some(p) => match member(p, "timeSeries"@) {
            Some(JsonView::Array(s)) => Some(s),
            _ => None,
        },
        None => None,
    }
}

/// Whether a forecast carries what an envelope says.
pub open spec fn matches_envelope<T: TimePeriod>(f: Forecast<T>, env: Envelope) -> bool {
    &&& f.location_name@ == env.location_name
    &&& f.coordinates.longitude@ == env.position[0]
    &&& f.coordinates.latitude@ == env.position[1]
    &&& f.coordinates.altitude == Metres(env.position[2])
    &&& f.requested_point_distance == Metres(env.requested_point_distance)
    &&& f.predictions_made_at == env.predictions_made_at
}

/// Reads the envelope of a document and hands back its time series entries.
fn read_envelope(doc: &serde_json::Value) -> (r: Result<
    (String, Coordinates, Metres, UtcTime, &Vec<serde_json::Value>),
    ForecastError,
>)
    ensures
        match (envelope_of(json_view(*doc)), time_series_of(json_view(*doc))) {
            (Some(env), Some(s)) => r matches Ok((name, c, d, t, items)) && name@
                == env.location_name && c.longitude@ == env.position[0] && c.latitude@
                == env.position[1] && c.altitude == Metres(env.position[2]) && d == Metres(
                env.requested_point_distance,
            ) && t == env.predictions_made_at && items@.len() == s.len() && forall|i: int|
                0 <= i < s.len() ==> #[trigger] json_view(items@[i]) == s[i],
            _ => r matches Err(e) && e is Serde,
        },
{
    let ghost d = json_view(*doc);
    let features = match get_member(doc, "features") {
        Some(v) => v,
        None => return Err(ForecastError::Serde(missing_field("features"))),
    };
    let features = match as_elements(features) {
        Some(a) => a,
        None => return Err(ForecastError::Serde(invalid_field("features"))),
    };
    if features.len() == 0 {
        return Err(ForecastError::Serde(invalid_field("features")));
    }
    let feature = &features[0];
    let geometry = match get_member(feature, "geometry") {
        Some(v) => v,
        None => return Err(ForecastError::Serde(missing_field("geometry"))),
    };
    let position = match get_member(geometry, "coordinates") {
        Some(v) => v,
        None => return Err(ForecastError::Serde(missing_field("coordinates"))),
    };
    let position = match as_elements(position) {
        Some(a) => a,
        None => return Err(ForecastError::Serde(invalid_field("coordinates"))),
    };
    if position.len() != 3 {
        return Err(ForecastError::Serde(invalid_field("coordinates")));
    }
    let lon = match as_float_bits(&position[0]) {
        Some(b) => b,
        None => return Err(ForecastError::Serde(invalid_field("coordinates"))),
    };
    let lat = match as_float_bits(&position[1]) {
        Some(b) => b,
        None => return Err(ForecastError::Serde(invalid_field("coordinates"))),
    };
    let alt = match as_float_bits(&position[2]) {
        Some(b) => b,
        None => return Err(ForecastError::Serde(invalid_field("coordinates"))),
    };
    let properties = match get_member(feature, "properties") {
        Some(v) => v,
        None => return Err(ForecastError::Serde(missing_field("properties"))),
    };
    let location = match get_member(properties, "location") {
        Some(v) => v,
        None => return Err(ForecastError::Serde(missing_field("location"))),
    };
    let name = read_text(location, "name")?;
    let distance = read_decimal(properties, "requestPointDistance")?;
    let run = read_time(properties, "modelRunDate")?;
    let items = match get_member(properties, "timeSeries") {
        Some(v) => v,
        None => return Err(ForecastError::Serde(missing_field("timeSeries"))),
    };
    let items = match as_elements(items) {
        Some(a) => a,
        None => return Err(ForecastError::Serde(invalid_field("timeSeries"))),
    };
    let coordinates = match Coordinates::try_from([lon, lat, alt]) {
        Ok(c) => c,
        Err(_) => return Err(ForecastError::Serde(invalid_field("coordinates"))),
    };
    proof {
        assert(position_of(d) == Some(seq![lon, lat, alt]));
    }
    Ok((name, coordinates, Metres(distance), run, items))
}

/// The raw entries of a time series, or `None` where one does not read as an entry of this
/// time period.
pub open spec fn hourly_records_of(s: Seq<JsonView>) -> Option<Seq<RawHourlyForecast>> {
    if forall|i: int| 0 <= i < s.len() ==> #[trigger] hourly_record(s[i]) is Some {
        Some(s.map_values(|j: JsonView| hourly_record(j)->Some_0))
    } else {
        None
    }
}

/// Whether `r` is what reading a forecast of this time period from `doc` gives: the envelope and
/// every entry converted in order, or the error of the first entry that does not convert; any
/// document of another shape is a schema error.
pub open spec fn reads_hourly(doc: JsonView, r: Result<Forecast<Hourly>, ForecastError>) -> bool {
    match (envelope_of(doc), time_series_of(doc)) {
        (Some(env), Some(s)) => match hourly_records_of(s) {
            Some(raws) => match r {
                Ok(f) => matches_envelope(f, env) && f.predictions@.len() == raws.len() && forall|
                    i: int,
                | 0 <= i < raws.len() ==> #[trigger] hourly_of(raws[i]) == Some(f.predictions@[i]),
                Err(e) => exists|k: int|
                    0 <= k < raws.len() && #[trigger] hourly_of(raws[k]) is None && (forall|i: int|
                        0 <= i < k ==> #[trigger] hourly_of(raws[i]) is Some) && converts_hourly(
                        raws[k],
                        Err(e),
                    ),
            },
            None => r matches Err(e) && e is Serde,
        },
        _ => r matches Err(e) && e is Serde,
    }
}

fn decode_hourly_series(items: &Vec<serde_json::Value>) -> (r: Result<Vec<RawHourlyForecast>, ForecastError>)
    ensures
        match r {
            Ok(v) => v@.len() == items@.len() && forall|i: int|
                0 <= i < items@.len() ==> #[trigger] hourly_record(json_view(items@[i])) == Some(
                    v@[i],
                ),
            Err(e) => e is Serde && exists|i: int|
                0 <= i < items@.len() && #[trigger] hourly_record(json_view(items@[i])) is None,
        },
{
    let mut out: Vec<RawHourlyForecast> = Vec::new();
    let mut i: usize = 0;
    while i < items.len()
        invariant
            i <= items@.len(),
            out@.len() == i,
            forall|j: int| 0 <= j < i ==> #[trigger] hourly_record(json_view(items@[j])) == Some(out@[j]),
        decreases items@.len() - i,
    {
        let x = RawHourlyForecast::decode(&items[i])?;
        out.push(x);
        i += 1;
    }
    Ok(out)
}

fn convert_hourly_series(raws: &Vec<RawHourlyForecast>) -> (r: Result<Vec<Hourly>, ForecastError>)
    ensures
        match r {
            Ok(v) => v@.len() == raws@.len() && forall|i: int|
                0 <= i < raws@.len() ==> #[trigger] hourly_of(raws@[i]) == Some(v@[i]),
            Err(e) => exists|k: int|
                0 <= k < raws@.len() && #[trigger] hourly_of(raws@[k]) is None && (forall|i: int|
                    0 <= i < k ==> #[trigger] hourly_of(raws@[i]) is Some) && converts_hourly(
                    raws@[k],
                    Err(e),
                ),
        },
{
    let mut out: Vec<Hourly> = Vec::new();
    let mut i: usize = 0;
    while i < raws.len()
        invariant
            i <= raws@.len(),
            out@.len() == i,
            forall|j: int| 0 <= j < i ==> #[trigger] hourly_of(raws@[j]) == Some(out@[j]),
        decreases raws@.len() - i,
    {
        match Hourly::try_from(raws[i]) {
            Ok(x) => out.push(x),
            Err(e) => return Err(e),
        }
        i += 1;
    }
    Ok(out)
}

impl Forecast<Hourly> {
    /// Reads a forecast from a parsed JSON document.
    pub fn from_json(doc: &serde_json::Value) -> (r: Result<Forecast<Hourly>, ForecastError>)
        ensures
            reads_hourly(json_view(*doc), r),
    {
        let ghost d = json_view(*doc);
        let (location_name, coordinates, requested_point_distance, predictions_made_at, items) =
            read_envelope(doc)?;
        let ghost s = time_series_of(d)->Some_0;
        let raws = match decode_hourly_series(items) {
            Ok(v) => v,
            Err(e) => {
                proof {
                    let i = choose|i: int| 0 <= i < items@.len() && #[trigger] hourly_record(json_view(items@[i])) is None;
                    assert(hourly_record(s[i]) is None);
                }
                return Err(e);
            },
        };
        proof {
            assert forall|i: int| 0 <= i < s.len() implies #[trigger] hourly_record(s[i]) == Some(
                raws@[i],
            ) by {
                assert(json_view(items@[i]) == s[i]);
            }
            assert(hourly_records_of(s) == Some(s.map_values(|j: JsonView| hourly_record(j)->Some_0)));
            assert(s.map_values(|j: JsonView| hourly_record(j)->Some_0) =~= raws@);
        }
        let predictions = convert_hourly_series(&raws)?;
        Ok(Forecast {
            location_name,
            coordinates,
            requested_point_distance,
            predictions_made_at,
            predictions,
        })
    }

    /// Reads a forecast from JSON text.
    pub fn from_text(s: &str) -> (r: Result<Forecast<Hourly>, ForecastError>)
        ensures
            match json_of_text(s@) {
                Some(doc) => reads_hourly(doc, r),
                None => r matches Err(e) && e is Serde,
            },
    {
        match parse_text(s) {
            Ok(doc) => Self::from_json(&doc),
            Err(e) => Err(ForecastError::Serde(e)),
        }
    }

    /// Reads a forecast from the bytes of JSON text.
    pub fn from_bytes(b: &[u8]) -> (r: Result<Forecast<Hourly>, ForecastError>)
        ensures
            match json_of_bytes(b@) {
                Some(doc) => reads_hourly(doc, r),
                None => r matches Err(e) && e is Serde,
            },
    {
        match parse_bytes(b) {
            Ok(doc) => Self::from_json(&doc),
            Err(e) => Err(ForecastError::Serde(e)),
        }
    }

    /// The request URL for this time period at a location, given as the decimal text of its
    /// latitude and longitude.
    pub fn url_for_location(latitude: &str, longitude: &str) -> (r: Option<String>)
        ensures
            match url_with_params(endpoint_of(Granularity::Hourly), query_of(latitude@, longitude@)) {
                Some(u) => r matches Some(s) && s@ == u,
                None => r is None,
            },
    {
        forecast_url(Granularity::Hourly, latitude, longitude)
    }
}

/// Reading the same document twice gives the same forecast: the same envelope and the same
/// predictions in the same order.
pub proof fn lemma_hourly_read_deterministic(doc: JsonView, f1: Forecast<Hourly>, f2: Forecast<Hourly>)
    requires
        reads_hourly(doc, Ok::<Forecast<Hourly>, ForecastError>(f1)),
        reads_hourly(doc, Ok::<Forecast<Hourly>, ForecastError>(f2)),
    ensures
        f1.predictions@ == f2.predictions@,
        f1.location_name@ == f2.location_name@,
        f1.coordinates.latitude@ == f2.coordinates.latitude@,
        f1.coordinates.longitude@ == f2.coordinates.longitude@,
        f1.coordinates.altitude == f2.coordinates.altitude,
        f1.requested_point_distance == f2.requested_point_distance,
        f1.predictions_made_at == f2.predictions_made_at,
{
    let raws = hourly_records_of(time_series_of(doc)->Some_0)->Some_0;
    assert forall|i: int| 0 <= i < raws.len() implies f1.predictions@[i] == f2.predictions@[i] by {
        assert(hourly_of(raws[i]) == Some(f1.predictions@[i]));
    }
    assert(f1.predictions@ =~= f2.predictions@);
}

impl core::str::FromStr for Forecast<Hourly> {
    type Err = ForecastError;

    fn from_str(s: &str) -> Result<Forecast<Hourly>, ForecastError> {
        Self::from_text(s)
    }
}

/// The raw entries of a time series, or `None` where one does not read as an entry of this
/// time period.
pub open spec fn three_hourly_records_of(s: Seq<JsonView>) -> Option<Seq<RawThreeHourlyForecast>> {
    if forall|i: int| 0 <= i < s.len() ==> #[trigger] three_hourly_record(s[i]) is Some {
        Some(s.map_values(|j: JsonView| three_hourly_record(j)->Some_0))
    } else {
        None
    }
}

/// Whether `r` is what reading a forecast of this time period from `doc` gives: the envelope and
/// every entry converted in order, or the error of the first entry that does not convert; any
/// document of another shape is a schema error.
pub open spec fn reads_three_hourly(doc: JsonView, r: Result<Forecast<ThreeHourly>, ForecastError>) -> bool {
    match (envelope_of(doc), time_series_of(doc)) {
        (Some(env), Some(s)) => match three_hourly_records_of(s) {
            Some(raws) => match r {
                Ok(f) => matches_envelope(f, env) && f.predictions@.len() == raws.len() && forall|
                    i: int,
                | 0 <= i < raws.len() ==> #[trigger] three_hourly_of(raws[i]) == Some(f.predictions@[i]),
                Err(e) => exists|k: int|
                    0 <= k < raws.len() && #[trigger] three_hourly_of(raws[k]) is None && (forall|i: int|
                        0 <= i < k ==> #[trigger] three_hourly_of(raws[i]) is Some) && converts_three_hourly(
                        raws[k],
                        Err(e),
                    ),
            },
            None => r matches Err(e) && e is Serde,
        },
        _ => r matches Err(e) && e is Serde,
    }
}

fn decode_three_hourly_series(items: &Vec<serde_json::Value>) -> (r: Result<Vec<RawThreeHourlyForecast>, ForecastError>)
    ensures
        match r {
            Ok(v) => v@.len() == items@.len() && forall|i: int|
                0 <= i < items@.len() ==> #[trigger] three_hourly_record(json_view(items@[i])) == Some(
                    v@[i],
                ),
            Err(e) => e is Serde && exists|i: int|
                0 <= i < items@.len() && #[trigger] three_hourly_record(json_view(items@[i])) is None,
        },
{
    let mut out: Vec<RawThreeHourlyForecast> = Vec::new();
    let mut i: usize = 0;
    while i < items.len()
        invariant
            i <= items@.len(),
            out@.len() == i,
            forall|j: int| 0 <= j < i ==> #[trigger] three_hourly_record(json_view(items@[j])) == Some(out@[j]),
        decreases items@.len() - i,
    {
        let x = RawThreeHourlyForecast::decode(&items[i])?;
        out.push(x);
        i += 1;
    }
    Ok(out)
}

fn convert_three_hourly_series(raws: &Vec<RawThreeHourlyForecast>) -> (r: Result<Vec<ThreeHourly>, ForecastError>)
    ensures
        match r {
            Ok(v) => v@.len() == raws@.len() && forall|i: int|
                0 <= i < raws@.len() ==> #[trigger] three_hourly_of(raws@[i]) == Some(v@[i]),
            Err(e) => exists|k: int|
                0 <= k < raws@.len() && #[trigger] three_hourly_of(raws@[k]) is None && (forall|i: int|
                    0 <= i < k ==> #[trigger] three_hourly_of(raws@[i]) is Some) && converts_three_hourly(
                    raws@[k],
                    Err(e),
                ),
        },
{
    let mut out: Vec<ThreeHourly> = Vec::new();
    let mut i: usize = 0;
    while i < raws.len()
        invariant
            i <= raws@.len(),
            out@.len() == i,
            forall|j: int| 0 <= j < i ==> #[trigger] three_hourly_of(raws@[j]) == Some(out@[j]),
        decreases raws@.len() - i,
    {
        match ThreeHourly::try_from(raws[i]) {
            Ok(x) => out.push(x),
            Err(e) => return Err(e),
        }
        i += 1;
    }
    Ok(out)
}

impl Forecast<ThreeHourly> {
    /// Reads a forecast from a parsed JSON document.
    pub fn from_json(doc: &serde_json::Value) -> (r: Result<Forecast<ThreeHourly>, ForecastError>)
        ensures
            reads_three_hourly(json_view(*doc), r),
    {
        let ghost d = json_view(*doc);
        let (location_name, coordinates, requested_point_distance, predictions_made_at, items) =
            read_envelope(doc)?;
        let ghost s = time_series_of(d)->Some_0;
        let raws = match decode_three_hourly_series(items) {
            Ok(v) => v,
            Err(e) => {
                proof {
                    let i = choose|i: int| 0 <= i < items@.len() && #[trigger] three_hourly_record(json_view(items@[i])) is None;
                    assert(three_hourly_record(s[i]) is None);
                }
                return Err(e);
            },
        };
        proof {
            assert forall|i: int| 0 <= i < s.len() implies #[trigger] three_hourly_record(s[i]) == Some(
                raws@[i],
            ) by {
                assert(json_view(items@[i]) == s[i]);
            }
            assert(three_hourly_records_of(s) == Some(s.map_values(|j: JsonView| three_hourly_record(j)->Some_0)));
            assert(s.map_values(|j: JsonView| three_hourly_record(j)->Some_0) =~= raws@);
        }
        let predictions = convert_three_hourly_series(&raws)?;
        Ok(Forecast {
            location_name,
            coordinates,
            requested_point_distance,
            predictions_made_at,
            predictions,
        })
    }

    /// Reads a forecast from JSON text.
    pub fn from_text(s: &str) -> (r: Result<Forecast<ThreeHourly>, ForecastError>)
        ensures
            match json_of_text(s@) {
                Some(doc) => reads_three_hourly(doc, r),
                None => r matches Err(e) && e is Serde,
            },
    {
        match parse_text(s) {
            Ok(doc) => Self::from_json(&doc),
            Err(e) => Err(ForecastError::Serde(e)),
        }
    }

    /// Reads a forecast from the bytes of JSON text.
    pub fn from_bytes(b: &[u8]) -> (r: Result<Forecast<ThreeHourly>, ForecastError>)
        ensures
            match json_of_bytes(b@) {
                Some(doc) => reads_three_hourly(doc, r),
                None => r matches Err(e) && e is Serde,
            },
    {
        match parse_bytes(b) {
            Ok(doc) => Self::from_json(&doc),
            Err(e) => Err(ForecastError::Serde(e)),
        }
    }

    /// The request URL for this time period at a location, given as the decimal text of its
    /// latitude and longitude.
    pub fn url_for_location(latitude: &str, longitude: &str) -> (r: Option<String>)
        ensures
            match url_with_params(endpoint_of(Granularity::ThreeHourly), query_of(latitude@, longitude@)) {
                Some(u) => r matches Some(s) && s@ == u,
                None => r is None,
            },
    {
        forecast_url(Granularity::ThreeHourly, latitude, longitude)
    }
}

/// Reading the same document twice gives the same forecast: the same envelope and the same
/// predictions in the same order.
pub proof fn lemma_three_hourly_read_deterministic(doc: JsonView, f1: Forecast<ThreeHourly>, f2: Forecast<ThreeHourly>)
    requires
        reads_three_hourly(doc, Ok::<Forecast<ThreeHourly>, ForecastError>(f1)),
        reads_three_hourly(doc, Ok::<Forecast<ThreeHourly>, ForecastError>(f2)),
    ensures
        f1.predictions@ == f2.predictions@,
        f1.location_name@ == f2.location_name@,
        f1.coordinates.latitude@ == f2.coordinates.latitude@,
        f1.coordinates.longitude@ == f2.coordinates.longitude@,
        f1.coordinates.altitude == f2.coordinates.altitude,
        f1.requested_point_distance == f2.requested_point_distance,
        f1.predictions_made_at == f2.predictions_made_at,
{
    let raws = three_hourly_records_of(time_series_of(doc)->Some_0)->Some_0;
    assert forall|i: int| 0 <= i < raws.len() implies f1.predictions@[i] == f2.predictions@[i] by {
        assert(three_hourly_of(raws[i]) == Some(f1.predictions@[i]));
    }
    assert(f1.predictions@ =~= f2.predictions@);
}

impl core::str::FromStr for Forecast<ThreeHourly> {
    type Err = ForecastError;

    fn from_str(s: &str) -> Result<Forecast<ThreeHourly>, ForecastError> {
        Self::from_text(s)
    }
}

/// The raw entries of a time series, or `None` where one does not read as an entry of this
/// time period.
pub open spec fn daily_records_of(s: Seq<JsonView>) -> Option<Seq<RawDailyForecast>> {
    if forall|i: int| 0 <= i < s.len() ==> #[trigger] daily_record(s[i]) is Some {
        Some(s.map_values(|j: JsonView| daily_record(j)->Some_0))
    } else {
        None
    }
}

/// Whether `r` is what reading a forecast of this time period from `doc` gives: the envelope and
/// every entry converted in order, or the error of the first entry that does not convert; any
/// document of another shape is a schema error.
pub open spec fn reads_daily(doc: JsonView, r: Result<Forecast<Daily>, ForecastError>) -> bool {
    match (envelope_of(doc), time_series_of(doc)) {
        (Some(env), Some(s)) => match daily_records_of(s) {
            Some(raws) => match r {
                Ok(f) => matches_envelope(f, env) && f.predictions@.len() == raws.len() && forall|
                    i: int,
                | 0 <= i < raws.len() ==> #[trigger] daily_of(raws[i]) == Some(f.predictions@[i]),
                Err(e) => exists|k: int|
                    0 <= k < raws.len() && #[trigger] daily_of(raws[k]) is None && (forall|i: int|
                        0 <= i < k ==> #[trigger] daily_of(raws[i]) is Some) && converts_daily(
                        raws[k],
                        Err(e),
                    ),
            },
            None => r matches Err(e) && e is Serde,
        },
        _ => r matches Err(e) && e is Serde,
    }
}

fn decode_daily_series(items: &Vec<serde_json::Value>) -> (r: Result<Vec<RawDailyForecast>, ForecastError>)
    ensures
        match r {
            Ok(v) => v@.len() == items@.len() && forall|i: int|
                0 <= i < items@.len() ==> #[trigger] daily_record(json_view(items@[i])) == Some(
                    v@[i],
                ),
            Err(e) => e is Serde && exists|i: int|
                0 <= i < items@.len() && #[trigger] daily_record(json_view(items@[i])) is None,
        },
{
    let mut out: Vec<RawDailyForecast> = Vec::new();
    let mut i: usize = 0;
    while i < items.len()
        invariant
            i <= items@.len(),
            out@.len() == i,
            forall|j: int| 0 <= j < i ==> #[trigger] daily_record(json_view(items@[j])) == Some(out@[j]),
        decreases items@.len() - i,
    {
        let x = RawDailyForecast::decode(&items[i])?;
        out.push(x);
        i += 1;
    }
    Ok(out)
}

fn convert_daily_series(raws: &Vec<RawDailyForecast>) -> (r: Result<Vec<Daily>, ForecastError>)
    ensures
        match r {
            Ok(v) => v@.len() == raws@.len() && forall|i: int|
                0 <= i < raws@.len() ==> #[trigger] daily_of(raws@[i]) == Some(v@[i]),
            Err(e) => exists|k: int|
                0 <= k < raws@.len() && #[trigger] daily_of(raws@[k]) is None && (forall|i: int|
                    0 <= i < k ==> #[trigger] daily_of(raws@[i]) is Some) && converts_daily(
                    raws@[k],
                    Err(e),
                ),
        },
{
    let mut out: Vec<Daily> = Vec::new();
    let mut i: usize = 0;
    while i < raws.len()
        invariant
            i <= raws@.len(),
            out@.len() == i,
            forall|j: int| 0 <= j < i ==> #[trigger] daily_of(raws@[j]) == Some(out@[j]),
        decreases raws@.len() - i,
    {
        match Daily::try_from(raws[i]) {
            Ok(x) => out.push(x),
            Err(e) => return Err(e),
        }
        i += 1;
    }
    Ok(out)
}

impl Forecast<Daily> {
    /// Reads a forecast from a parsed JSON document.
    pub fn from_json(doc: &serde_json::Value) -> (r: Result<Forecast<Daily>, ForecastError>)
        ensures
            reads_daily(json_view(*doc), r),
    {
        let ghost d = json_view(*doc);
        let (location_name, coordinates, requested_point_distance, predictions_made_at, items) =
            read_envelope(doc)?;
        let ghost s = time_series_of(d)->Some_0;
        let raws = match decode_daily_series(items) {
            Ok(v) => v,
            Err(e) => {
                proof {
                    let i = choose|i: int| 0 <= i < items@.len() && #[trigger] daily_record(json_view(items@[i])) is None;
                    assert(daily_record(s[i]) is None);
                }
                return Err(e);
            },
        };
        proof {
            assert forall|i: int| 0 <= i < s.len() implies #[trigger] daily_record(s[i]) == Some(
                raws@[i],
            ) by {
                assert(json_view(items@[i]) == s[i]);
            }
            assert(daily_records_of(s) == Some(s.map_values(|j: JsonView| daily_record(j)->Some_0)));
            assert(s.map_values(|j: JsonView| daily_record(j)->Some_0) =~= raws@);
        }
        let predictions = convert_daily_series(&raws)?;
        Ok(Forecast {
            location_name,
            coordinates,
            requested_point_distance,
            predictions_made_at,
            predictions,
        })
    }

    /// Reads a forecast from JSON text.
    pub fn from_text(s: &str) -> (r: Result<Forecast<Daily>, ForecastError>)
        ensures
            match json_of_text(s@) {
                Some(doc) => reads_daily(doc, r),
                None => r matches Err(e) && e is Serde,
            },
    {
        match parse_text(s) {
            Ok(doc) => Self::from_json(&doc),
            Err(e) => Err(ForecastError::Serde(e)),
        }
    }

    /// Reads a forecast from the bytes of JSON text.
    pub fn from_bytes(b: &[u8]) -> (r: Result<Forecast<Daily>, ForecastError>)
        ensures
            match json_of_bytes(b@) {
                Some(doc) => reads_daily(doc, r),
                None => r matches Err(e) && e is Serde,
            },
    {
        match parse_bytes(b) {
            Ok(doc) => Self::from_json(&doc),
            Err(e) => Err(ForecastError::Serde(e)),
        }
    }

    /// The request URL for this time period at a location, given as the decimal text of its
    /// latitude and longitude.
    pub fn url_for_location(latitude: &str, longitude: &str) -> (r: Option<String>)
        ensures
            match url_with_params(endpoint_of(Granularity::Daily), query_of(latitude@, longitude@)) {
                Some(u) => r matches Some(s) && s@ == u,
                None => r is None,
            },
    {
        forecast_url(Granularity::Daily, latitude, longitude)
    }
}

/// Reading the same document twice gives the same forecast: the same envelope and the same
/// predictions in the same order.
pub proof fn lemma_daily_read_deterministic(doc: JsonView, f1: Forecast<Daily>, f2: Forecast<Daily>)
    requires
        reads_daily(doc, Ok::<Forecast<Daily>, ForecastError>(f1)),
        reads_daily(doc, Ok::<Forecast<Daily>, ForecastError>(f2)),
    ensures
        f1.predictions@ == f2.predictions@,
        f1.location_name@ == f2.location_name@,
        f1.coordinates.latitude@ == f2.coordinates.latitude@,
        f1.coordinates.longitude@ == f2.coordinates.longitude@,
        f1.coordinates.altitude == f2.coordinates.altitude,
        f1.requested_point_distance == f2.requested_point_distance,
        f1.predictions_made_at == f2.predictions_made_at,
{
    let raws = daily_records_of(time_series_of(doc)->Some_0)->Some_0;
    assert forall|i: int| 0 <= i < raws.len() implies f1.predictions@[i] == f2.predictions@[i] by {
        assert(daily_of(raws[i]) == Some(f1.predictions@[i]));
    }
    assert(f1.predictions@ =~= f2.predictions@);
}

impl core::str::FromStr for Forecast<Daily> {
    type Err = ForecastError;

    fn from_str(s: &str) -> Result<Forecast<Daily>, ForecastError> {
        Self::from_text(s)
    }
}

} // verus!
