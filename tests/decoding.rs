use std::str::FromStr;

use uktides::{
    decode_civil_datetime, decode_event_type, decode_lunar_phase_type, decode_zulu_datetime,
    find_station, parse_decimal, stations_from_slice, tides_from_slice, Coordinates, Country,
    Decimal, DecimalDegrees, Error, Field, Instant, JsonValue, LunarPhaseType, Metres, Station,
    StationId, TidalEvent, TidalEventType,
};

fn number(text: &str) -> JsonValue {
    JsonValue::Number(text.to_owned())
}

fn feature(id: &str, name: &str, country: &str, lon: &str, lat: &str) -> String {
    format!(
        r#"{{"type": "Feature", "geometry": {{"type": "Point", "coordinates": [{lon}, {lat}]}},
            "properties": {{"Id": "{id}", "Name": "{name}", "Country": "{country}", "ContinuousHeightsAvailable": true}}}}"#
    )
}

fn collection(features: &[String]) -> String {
    format!(r#"{{"type": "FeatureCollection", "features": [{}]}}"#, features.join(","))
}

fn instant_of(text: &str) -> Instant {
    decode_civil_datetime(&text.to_owned()).unwrap().instant
}

#[test]
fn fractional_seconds_are_dropped() {
    let plain = decode_civil_datetime(&"2025-08-17T05:14:18".to_owned()).unwrap();
    let half = decode_civil_datetime(&"2025-08-17T05:14:18.5".to_owned()).unwrap();
    let long = decode_civil_datetime(&"2025-08-17T05:14:18.123456".to_owned()).unwrap();
    assert_eq!(plain, half);
    assert_eq!(plain, long);
    assert_eq!(plain.instant.nanosecond, 0);
}

#[test]
fn summer_time_adds_one_hour() {
    let winter = decode_civil_datetime(&"2025-01-15T12:00:00".to_owned()).unwrap();
    let summer = decode_civil_datetime(&"2025-08-15T12:00:00".to_owned()).unwrap();
    assert_eq!(winter.offset_seconds, 0);
    assert_eq!(winter.local.hour, 12);
    assert_eq!(summer.offset_seconds, 3600);
    assert_eq!(summer.local.hour, 13);
    assert_eq!(summer.local.hour - winter.local.hour, 1);
}

#[test]
fn utc_instant_is_exact() {
    // 2025-08-17T05:14:18Z is 1755407658 seconds after the epoch.
    assert_eq!(instant_of("2025-08-17T05:14:18"), Instant { second: 1755407658, nanosecond: 0 });
    assert_eq!(instant_of("1970-01-01T00:00:00"), Instant { second: 0, nanosecond: 0 });
}

#[test]
fn date_near_midnight_follows_the_target_zone() {
    let late = decode_civil_datetime(&"2025-08-17T23:30:00".to_owned()).unwrap();
    assert_eq!(late.date(), uktides::Date { year: 2025, month: 8, day: 18 });
    assert_eq!(late.local.hour, 0);
    assert_eq!(late.local.minute, 30);
}

#[test]
fn zulu_matches_civil() {
    let zulu = decode_zulu_datetime(&"2025-08-17T23:00:00Z".to_owned()).unwrap();
    let civil = decode_civil_datetime(&"2025-08-17T23:00:00".to_owned()).unwrap();
    assert_eq!(zulu, civil);
    let winter_zulu = decode_zulu_datetime(&"2025-01-02T03:04:05Z".to_owned()).unwrap();
    let winter_civil = decode_civil_datetime(&"2025-01-02T03:04:05".to_owned()).unwrap();
    assert_eq!(winter_zulu, winter_civil);
}

#[test]
fn zulu_keeps_fractional_seconds() {
    let z = decode_zulu_datetime(&"2025-08-17T23:00:00.25Z".to_owned()).unwrap();
    assert_eq!(z.instant.nanosecond, 250_000_000);
}

#[test]
fn malformed_datetimes_fail() {
    assert!(matches!(
        decode_civil_datetime(&"17/08/2025 05:14".to_owned()),
        Err(Error::DateTime(t)) if t == "17/08/2025 05:14"
    ));
    assert!(matches!(
        decode_civil_datetime(&"2025-13-17T05:14:18".to_owned()),
        Err(Error::DateTime(_))
    ));
    assert!(matches!(decode_zulu_datetime(&"2025-08-17".to_owned()), Err(Error::DateTime(_))));
}

#[test]
fn event_type_codes() {
    assert_eq!(decode_event_type(&number("0")).unwrap(), TidalEventType::HighWater);
    assert_eq!(decode_event_type(&number("1")).unwrap(), TidalEventType::LowWater);
    assert!(matches!(decode_event_type(&number("2")), Err(Error::EventType(t)) if t == "2"));
    assert!(matches!(decode_event_type(&number("-1")), Err(Error::EventType(t)) if t == "-1"));
    assert!(matches!(decode_event_type(&number("0.5")), Err(Error::EventType(_))));
    assert!(matches!(
        decode_event_type(&JsonValue::String("0".to_owned())),
        Err(Error::Field(Field::EventType))
    ));
    assert_eq!(TidalEventType::from_code(0), Some(TidalEventType::HighWater));
    assert_eq!(TidalEventType::from_code(7), None);
}

#[test]
fn lunar_phase_codes() {
    let phases = [
        LunarPhaseType::NewMoon,
        LunarPhaseType::FirstQuarter,
        LunarPhaseType::FullMoon,
        LunarPhaseType::LastQuarter,
    ];
    for (code, phase) in ["1", "2", "3", "4"].iter().zip(phases) {
        assert_eq!(decode_lunar_phase_type(&number(code)).unwrap(), phase);
    }
    assert!(matches!(decode_lunar_phase_type(&number("0")), Err(Error::LunarPhase(t)) if t == "0"));
    assert!(matches!(decode_lunar_phase_type(&number("5")), Err(Error::LunarPhase(t)) if t == "5"));
}

#[test]
fn sandown_round_trip() {
    let doc = collection(&[feature("0053", "Sandown", "England", "-1.15", "50.65")]);
    let stations = stations_from_slice(doc.as_bytes()).unwrap();
    assert_eq!(stations.len(), 1);
    let s = &stations[0];
    assert_eq!(s.id.0, "0053");
    assert_eq!(s.name, "Sandown");
    assert_eq!(s.country, Country::England);
    assert!(s.continuous_heights_available);
    assert_eq!(
        s.location,
        Coordinates {
            longitude: DecimalDegrees(Decimal { digits: -115, scale: 2 }),
            latitude: DecimalDegrees(Decimal { digits: 5065, scale: 2 }),
        }
    );
}

#[test]
fn stations_keep_document_order() {
    let doc = collection(&[
        feature("0102", "RAMSGATE", "England", "1.416666", "51.333333"),
        feature("0053", "Sandown", "England", "-1.15", "50.65"),
    ]);
    let stations = stations_from_slice(doc.as_bytes()).unwrap();
    assert_eq!(stations[0].id.0, "0102");
    assert_eq!(stations[1].id.0, "0053");
}

#[test]
fn empty_height_list_is_accepted() {
    let doc = r#"{"footerNote": "note", "lunarPhaseList": [],
        "tidalEventList": [{"dateTime": "2025-08-17T05:14:18", "eventType": 0, "height": 3.5}],
        "tidalHeightOccurrenceList": []}"#;
    let tides = tides_from_slice(doc.as_bytes()).unwrap();
    assert!(tides.tidal_height_occurrence_list.is_empty());
    assert_eq!(tides.tidal_event_list.len(), 1);
    assert_eq!(tides.tidal_event_list[0].height, Metres(Decimal::new(35, 1)));
    assert_eq!(tides.tidal_event_list[0].is_approximate_height, None);
}

#[test]
fn station_equality_uses_identifier_only() {
    let location = Coordinates {
        longitude: DecimalDegrees(Decimal::new(-115, 2)),
        latitude: DecimalDegrees(Decimal::new(5065, 2)),
    };
    let a = Station {
        id: StationId::new("0053"),
        name: "Sandown".to_owned(),
        country: Country::England,
        location,
        continuous_heights_available: true,
    };
    let b = Station {
        id: StationId::new("0053"),
        name: "Somewhere else".to_owned(),
        country: Country::Wales,
        location,
        continuous_heights_available: false,
    };
    let c = Station { id: StationId::new("0054"), ..a.clone() };
    assert_eq!(a, b);
    assert_ne!(a, c);
    assert!(a < c);
    assert_eq!(a.partial_cmp(&b), Some(std::cmp::Ordering::Equal));
}

#[test]
fn tidal_event_equality_uses_instant_only() {
    let when = decode_civil_datetime(&"2025-08-17T05:14:18".to_owned()).unwrap();
    let later = decode_civil_datetime(&"2025-08-17T10:48:32".to_owned()).unwrap();
    let a = TidalEvent {
        date_time: when,
        event_type: TidalEventType::HighWater,
        height: Metres(Decimal::new(35, 1)),
        is_approximate_height: None,
        is_approximate_time: None,
    };
    let b = TidalEvent {
        date_time: when,
        event_type: TidalEventType::LowWater,
        height: Metres(Decimal::new(12, 1)),
        is_approximate_height: Some("yes".to_owned()),
        is_approximate_time: None,
    };
    let c = TidalEvent { date_time: later, ..b.clone() };
    assert_eq!(a, b);
    assert_ne!(a, c);
    assert!(a < c);
    assert_eq!(a.date(), uktides::Date { year: 2025, month: 8, day: 17 });
}

#[test]
fn unknown_country_fails_whole_list() {
    let doc = collection(&[
        feature("0053", "Sandown", "England", "-1.15", "50.65"),
        feature("0001", "Penzance", "Cornwall", "-5.55", "50.1"),
        feature("0102", "RAMSGATE", "England", "1.416666", "51.333333"),
    ]);
    assert!(matches!(
        stations_from_slice(doc.as_bytes()),
        Err(Error::Country(name)) if name == "Cornwall"
    ));
}

#[test]
fn malformed_documents_fail() {
    assert!(matches!(stations_from_slice(b"{\"features\": ["), Err(Error::Syntax(_))));
    assert!(matches!(stations_from_slice(b"{}"), Err(Error::Field(Field::Features))));
    let missing_name = r#"{"type": "FeatureCollection", "features": [{"type": "Feature",
        "geometry": {"type": "Point", "coordinates": [1.0, 2.0]},
        "properties": {"Id": "1", "Country": "England", "ContinuousHeightsAvailable": true}}]}"#;
    assert!(matches!(stations_from_slice(missing_name.as_bytes()), Err(Error::Field(Field::Name))));
    let three_coordinates = collection(&[feature("1", "A", "England", "1.0, 2.0", "3.0")]);
    assert!(matches!(
        stations_from_slice(three_coordinates.as_bytes()),
        Err(Error::Field(Field::Coordinates))
    ));
    let huge = collection(&[feature("1", "A", "England", "1e30", "3.0")]);
    assert!(matches!(stations_from_slice(huge.as_bytes()), Err(Error::Number(_))));
    let exponent = collection(&[feature("1", "A", "England", "-1.15e1", "3.0")]);
    let stations = stations_from_slice(exponent.as_bytes()).unwrap();
    assert_eq!(stations[0].location.longitude, DecimalDegrees(Decimal::new(-115, 1)));
    let bad_event = r#"{"footerNote": "", "lunarPhaseList": [],
        "tidalEventList": [{"dateTime": "2025-08-17T05:14:18", "eventType": 3, "height": 1}],
        "tidalHeightOccurrenceList": []}"#;
    assert!(matches!(tides_from_slice(bad_event.as_bytes()), Err(Error::EventType(t)) if t == "3"));
    let bad_time = r#"{"footerNote": "", "lunarPhaseList": [],
        "tidalEventList": [],
        "tidalHeightOccurrenceList": [{"dateTime": "yesterday", "height": 1}]}"#;
    assert!(matches!(tides_from_slice(bad_time.as_bytes()), Err(Error::DateTime(t)) if t == "yesterday"));
}

#[test]
fn decimals_are_read_exactly() {
    assert_eq!(parse_decimal("-1.15"), Some(Decimal::new(-115, 2)));
    assert_eq!(parse_decimal("50.65"), Some(Decimal::new(5065, 2)));
    assert_eq!(parse_decimal("0"), Some(Decimal::new(0, 0)));
    assert_eq!(parse_decimal("9223372036854775807"), Some(Decimal::new(i64::MAX, 0)));
    assert_eq!(parse_decimal("-9223372036854775808"), Some(Decimal::new(i64::MIN, 0)));
    assert_eq!(parse_decimal("9223372036854775808"), None);
    assert_eq!(parse_decimal("1e5"), Some(Decimal::new(100000, 0)));
    assert_eq!(parse_decimal("1e+2"), Some(Decimal::new(100, 0)));
    assert_eq!(parse_decimal("1.5e-3"), Some(Decimal::new(15, 4)));
    assert_eq!(parse_decimal("-2.5E+1"), Some(Decimal::new(-25, 0)));
    assert_eq!(parse_decimal("1.25e1"), Some(Decimal::new(125, 1)));
    assert_eq!(parse_decimal("0e999999"), Some(Decimal::new(0, 0)));
    assert_eq!(parse_decimal("1e-4294967295"), Some(Decimal::new(1, u32::MAX)));
    assert_eq!(parse_decimal("1.5e-4294967295"), None);
    assert_eq!(parse_decimal("1e4294967296"), None);
    assert_eq!(parse_decimal("1e20"), None);
    assert_eq!(parse_decimal("1e"), None);
    assert_eq!(parse_decimal("1e+"), None);
    assert_eq!(parse_decimal("1."), None);
    assert_eq!(parse_decimal(".5"), None);
    assert_eq!(parse_decimal("-"), None);
    assert_eq!(parse_decimal(""), None);
}

#[test]
fn sexagesimal_rendering_truncates() {
    assert_eq!(DecimalDegrees(Decimal::new(49716666, 6)).to_string(), "49°42′59″");
    assert_eq!(DecimalDegrees(Decimal::new(-22, 1)).to_string(), "2°12′00″");
    assert_eq!(DecimalDegrees(Decimal::new(5, 1)).to_string(), "0°30′00″");
    assert_eq!(DecimalDegrees(Decimal::new(1, 40)).to_string(), "0°00′00″");
    assert_eq!(DecimalDegrees(Decimal::new(300, 0)).to_string(), "255°00′00″");
    let c = Coordinates {
        longitude: DecimalDegrees(Decimal::new(-22, 1)),
        latitude: DecimalDegrees(Decimal::new(49716666, 6)),
    };
    assert_eq!(c.to_string(), "49°42′59″N 2°12′00″W");
    let east = Coordinates {
        longitude: DecimalDegrees(Decimal::new(1416666, 6)),
        latitude: DecimalDegrees(Decimal::new(51333333, 6)),
    };
    assert_eq!(east.to_string(), "51°19′59″N 1°24′59″E");
}

#[test]
fn country_names() {
    let all = [
        (Country::ChannelIslands, "Channel Islands"),
        (Country::England, "England"),
        (Country::Ireland, "Ireland"),
        (Country::IsleOfMan, "Isle of Man"),
        (Country::NorthernIreland, "Northern Ireland"),
        (Country::Scotland, "Scotland"),
        (Country::Wales, "Wales"),
    ];
    for (country, name) in all {
        assert_eq!(country.to_string(), name);
        assert_eq!(Country::from_name(&name.to_owned()), Some(country));
        assert_eq!(Country::from_str(name).unwrap(), country);
    }
    assert_eq!(Country::from_name(&"Cornwall".to_owned()), None);
    assert!(matches!(Country::from_str("england"), Err(Error::Country(_))));
}

#[test]
fn display_texts() {
    assert_eq!(TidalEventType::HighWater.to_string(), "High tide");
    assert_eq!(TidalEventType::LowWater.to_string(), "Low tide");
    assert_eq!(StationId::from("0297A".to_owned()).to_string(), "0297A");
}

#[test]
fn station_lookup() {
    let doc = collection(&[
        feature("0102", "RAMSGATE", "England", "1.416666", "51.333333"),
        feature("0053", "Sandown", "England", "-1.15", "50.65"),
    ]);
    let stations = stations_from_slice(doc.as_bytes()).unwrap();
    assert_eq!(find_station(&stations, &StationId::new("0053")), Some(1));
    assert_eq!(find_station(&stations, &StationId::new("53")), None);
}

#[test]
fn endpoint_addresses() {
    assert_eq!(uktides::stations_list_url(), "https://easytide.admiralty.co.uk/Home/GetStations");
    assert_eq!(
        uktides::tide_predictions_url(&StationId::new("0053")),
        "https://easytide.admiralty.co.uk/Home/GetPredictionData?stationID=0053"
    );
    assert_eq!(
        uktides::tide_predictions_url(&StationId::new("a b&c")),
        "https://easytide.admiralty.co.uk/Home/GetPredictionData?stationID=a+b%26c"
    );
}
