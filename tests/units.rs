use rjw_metoffice::units::{Conditions, Metres, UvIndex, UvTier};
use rjw_metoffice::{Coordinates, Forecast, ForecastError, Granularity, Hourly, Latitude, Longitude};

fn bits(x: f64) -> u64 {
    x.to_bits()
}

#[test]
fn coordinates_only_in_bounds() {
    let oob = [
        [-180.1, 0.0, 0.0],
        [180.1, 0.0, 0.0],
        [0.0, 90.1, 0.0],
        [0.0, -90.1, 0.0],
    ];
    for coords in oob {
        assert!(Coordinates::try_from(coords.map(bits)).is_err())
    }
}

#[test]
fn coordinates_take_longitude_first() {
    let c = Coordinates::try_from([bits(-3.474), bits(50.727), bits(27.0)]).unwrap();
    assert_eq!(c.longitude.as_float(), bits(-3.474));
    assert_eq!(c.latitude.as_float(), bits(50.727));
    assert_eq!(c.altitude, Metres(bits(27.0)));
}

#[test]
fn coordinates_accept_the_bounds_themselves() {
    for [lon, lat] in [[180.0, 90.0], [-180.0, -90.0], [0.0, -0.0], [120.5, 89.99]] {
        let c = Coordinates::try_from([bits(lon), bits(lat), bits(-12.0)]).unwrap();
        assert_eq!(c.longitude.as_float(), bits(lon));
        assert_eq!(c.latitude.as_float(), bits(lat));
    }
}

#[test]
fn coordinates_fail_with_bounds_error_whatever_else_holds() {
    for c in [[200.0, 0.0, 1.0], [0.0, 100.0, 1.0], [200.0, 100.0, 1.0], [-500.0, 45.0, 0.0]] {
        let r = Coordinates::try_from(c.map(bits));
        assert!(matches!(r, Err(ForecastError::GeographicDegreesOutOfBounds)));
    }
}

#[test]
fn nan_and_infinite_degrees_are_rejected() {
    for d in [f64::NAN, f64::INFINITY, f64::NEG_INFINITY] {
        assert!(Latitude::new(bits(d)).is_err());
        assert!(Longitude::new(bits(d)).is_err());
    }
}

#[test]
fn latitude_and_longitude_ranges() {
    assert!(Latitude::new(bits(90.0)).is_ok());
    assert!(Latitude::new(bits(-90.0)).is_ok());
    assert!(Latitude::new(bits(90.000001)).is_err());
    assert!(Longitude::new(bits(180.0)).is_ok());
    assert!(Longitude::new(bits(-180.0)).is_ok());
    assert!(Longitude::new(bits(-180.000001)).is_err());
    assert!(Longitude::new(bits(95.0)).is_ok());
    assert!(Latitude::new(bits(95.0)).is_err());
    assert_eq!(Latitude::new(bits(15.348333)).unwrap().as_float(), bits(15.348333));
}

#[test]
fn every_known_code_decodes_to_its_own_condition() {
    let mut seen: Vec<Conditions> = Vec::new();
    for code in -1i8..=30 {
        let r = Conditions::try_from(code);
        if code == 4 {
            assert!(matches!(r, Err(ForecastError::UnknownWeatherCondition(4))));
            continue;
        }
        let c = r.unwrap();
        assert!(!seen.contains(&c));
        assert_eq!(Conditions::try_from(code).unwrap(), c);
        seen.push(c);
    }
    assert_eq!(seen.len(), 31);
}

#[test]
fn unknown_codes_carry_the_code() {
    for code in [i8::MIN, -2, 4, 31, 99, i8::MAX] {
        match Conditions::try_from(code) {
            Err(ForecastError::UnknownWeatherCondition(c)) => assert_eq!(c, code),
            other => panic!("unexpected {:?}", other),
        }
    }
}

#[test]
fn condition_table_samples() {
    assert_eq!(Conditions::try_from(-1).unwrap(), Conditions::TraceRain);
    assert_eq!(Conditions::try_from(0).unwrap(), Conditions::ClearNight);
    assert_eq!(Conditions::try_from(5).unwrap(), Conditions::Mist);
    assert_eq!(Conditions::try_from(15).unwrap(), Conditions::HeavyRain);
    assert_eq!(Conditions::try_from(30).unwrap(), Conditions::Thunder);
}

#[test]
fn day_and_night_codes_share_a_description() {
    assert_eq!(Conditions::PartlyCloudyDay.description(), "Partly Cloudy");
    assert_eq!(Conditions::PartlyCloudyNight.description(), "Partly Cloudy");
    assert_ne!(Conditions::PartlyCloudyDay, Conditions::PartlyCloudyNight);
    assert_eq!(Conditions::TraceRain.description(), "Trace of rain");
    assert_eq!(Conditions::ClearNight.description(), "Clear");
    assert_eq!(Conditions::ThunderShowerDay.description(), "Thunder shower");
}

#[test]
fn uv_advice_bands() {
    let low = "No protection required. You can safely stay outside.";
    let mid = "Seek shade during midday hours, cover up and wear sunscreen.";
    let high = "Avoid being outside during midday hours. Shirt, sunscreen and hat are essential.";
    assert_eq!(UvIndex(0).advice_message(), low);
    assert_eq!(UvIndex(2).advice_message(), low);
    assert_eq!(UvIndex(3).advice_message(), mid);
    assert_eq!(UvIndex(5).advice_message(), mid);
    assert_eq!(UvIndex(6).advice_message(), high);
    assert_eq!(UvIndex(255).advice_message(), high);
}

#[test]
fn error_messages() {
    assert_eq!(ForecastError::GeographicDegreesOutOfBounds.message(), "invalid geographic degrees");
    assert_eq!(ForecastError::UnknownWeatherCondition(4).message(), "unknown significant weather code");
}

#[test]
fn hourly_url_for_null_island() {
    let url = Forecast::<Hourly>::url_for_location("0", "0").unwrap();
    assert_eq!(
        url,
        "https://data.hub.api.metoffice.gov.uk/sitespecific/v0/point/hourly?latitude=0&longitude=0&source=BD1&excludeParameterMetadata=true&includeLocationName=true"
    );
}

#[test]
fn urls_differ_only_by_endpoint() {
    let lat = 15.348333f64.to_string();
    let lon = 44.206389f64.to_string();
    let three = rjw_metoffice::forecast_url(Granularity::ThreeHourly, &lat, &lon).unwrap();
    let daily = rjw_metoffice::forecast_url(Granularity::Daily, &lat, &lon).unwrap();
    let query = "?latitude=15.348333&longitude=44.206389&source=BD1&excludeParameterMetadata=true&includeLocationName=true";
    assert_eq!(three, format!("https://data.hub.api.metoffice.gov.uk/sitespecific/v0/point/three-hourly{}", query));
    assert_eq!(daily, format!("https://data.hub.api.metoffice.gov.uk/sitespecific/v0/point/daily{}", query));
}

#[test]
fn url_encodes_query_values() {
    let url = rjw_metoffice::forecast_url(Granularity::Hourly, "-3.5", "1 2").unwrap();
    assert!(url.contains("latitude=-3.5&longitude=1+2&"));
}

#[test]
fn uv_tiers() {
    let expected = [
        (0, UvTier::NoRisk),
        (1, UvTier::Low),
        (2, UvTier::Low),
        (3, UvTier::Moderate),
        (5, UvTier::Moderate),
        (6, UvTier::High),
        (7, UvTier::High),
        (8, UvTier::VeryHigh),
        (10, UvTier::VeryHigh),
        (11, UvTier::Extreme),
        (255, UvTier::Extreme),
    ];
    for (i, tier) in expected {
        assert_eq!(UvIndex(i).tier(), tier);
    }
}

#[test]
fn conditions_convert_through_try_into() {
    let c: Result<Conditions, ForecastError> = 9i8.try_into();
    assert_eq!(c.unwrap(), Conditions::LightRainShowerNight);
    let e: Result<Conditions, ForecastError> = 4i8.try_into();
    assert!(matches!(e, Err(ForecastError::UnknownWeatherCondition(4))));
}
