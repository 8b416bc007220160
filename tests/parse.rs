use uktides::{
    Coordinates, Country, Decimal, DecimalDegrees, LunarPhaseType, Metres, StationId,
    TidalEventType, ZonedDateTime,
};

const STATIONS_JSON: &str = r#"{
  "type": "FeatureCollection",
  "features": [
    {"type": "Feature", "geometry": {"type": "Point", "coordinates": [-2.2, 49.716666]},
     "properties": {"Id": "1603", "Name": "BRAYE", "Country": "Channel Islands", "ContinuousHeightsAvailable": true}},
    {"type": "Feature", "geometry": {"type": "Point", "coordinates": [-8.316666, 55.066666]},
     "properties": {"Id": "0681", "Name": "Gweedore Harbour", "Country": "Ireland", "ContinuousHeightsAvailable": true}},
    {"type": "Feature", "geometry": {"type": "Point", "coordinates": [1.416666, 51.333333]},
     "properties": {"Id": "0102", "Name": "RAMSGATE", "Country": "England", "ContinuousHeightsAvailable": true}},
    {"type": "Feature", "geometry": {"type": "Point", "coordinates": [-3.05, 53.216666]},
     "properties": {"Id": "0463", "Name": "Connah's Quay", "Country": "Wales", "ContinuousHeightsAvailable": false}},
    {"type": "Feature", "geometry": {"type": "Point", "coordinates": [-6.066666, 54.016666]},
     "properties": {"Id": "0627", "Name": "Cranfield Point", "Country": "Northern Ireland", "ContinuousHeightsAvailable": true}},
    {"type": "Feature", "geometry": {"type": "Point", "coordinates": [-3.166666, 58.633333]},
     "properties": {"Id": "0297A", "Name": "Gills Bay", "Country": "Scotland", "ContinuousHeightsAvailable": true}}
  ]
}"#;

const TIDES_JSON: &str = r#"{
  "footerNote": "High waters - important note. The high water duration can occur over an extended time period, i.e. a \"high water stand\". The predictions give the time and height of high water corresponding to the highest point.",
  "lunarPhaseList": [
    {"dateTime": "2025-08-23T06:06:00", "lunarPhaseType": 1}
  ],
  "tidalEventList": [
    {"dateTime": "2025-08-17T05:14:18.5", "eventType": 0, "height": 3.5317316090102,
     "isApproximateHeight": null, "isApproximateTime": null},
    {"dateTime": "2025-08-17T10:48:32", "eventType": 1, "height": 1.5415957943340564,
     "isApproximateHeight": null, "isApproximateTime": null}
  ],
  "tidalHeightOccurrenceList": [
    {"dateTime": "2025-08-17T23:00:00Z", "height": 1.657104},
    {"dateTime": "2025-08-17T23:30:00Z", "height": 1.599734}
  ]
}"#;

fn degrees(digits: i64, scale: u32) -> DecimalDegrees {
    DecimalDegrees(Decimal::new(digits, scale))
}

fn london(y: i16, mo: i8, d: i8, h: i8, mi: i8, s: i8) -> jiff::Zoned {
    jiff::civil::date(y, mo, d).at(h, mi, s, 0).in_tz("Europe/London").unwrap()
}

fn same_reading(z: &ZonedDateTime, expected: &jiff::Zoned) -> bool {
    let dt = expected.datetime();
    z.instant.second == expected.timestamp().as_second()
        && z.instant.nanosecond == expected.timestamp().subsec_nanosecond()
        && z.offset_seconds == expected.offset().seconds()
        && z.local.date.year == dt.year()
        && z.local.date.month == dt.month()
        && z.local.date.day == dt.day()
        && z.local.hour == dt.hour()
        && z.local.minute == dt.minute()
        && z.local.second == dt.second()
}

#[test]
fn stations() -> Result<(), uktides::Error> {
    let expected = vec![
        ("1603", "BRAYE", Country::ChannelIslands, degrees(-22, 1), degrees(49716666, 6), true),
        ("0681", "Gweedore Harbour", Country::Ireland, degrees(-8316666, 6), degrees(55066666, 6), true),
        ("0102", "RAMSGATE", Country::England, degrees(1416666, 6), degrees(51333333, 6), true),
        ("0463", "Connah's Quay", Country::Wales, degrees(-305, 2), degrees(53216666, 6), false),
        ("0627", "Cranfield Point", Country::NorthernIreland, degrees(-6066666, 6), degrees(54016666, 6), true),
        ("0297A", "Gills Bay", Country::Scotland, degrees(-3166666, 6), degrees(58633333, 6), true),
    ];
    let parsed = uktides::stations_from_slice(STATIONS_JSON.as_bytes())?;
    assert_eq!(parsed.len(), expected.len());
    for (p, (id, name, country, longitude, latitude, heights)) in parsed.into_iter().zip(expected) {
        // Station's equality only compares identifiers.
        assert_eq!(p.id, StationId(id.to_owned()));
        assert_eq!(p.name, name);
        assert_eq!(p.country, country);
        assert_eq!(p.location, Coordinates { longitude, latitude });
        assert_eq!(p.continuous_heights_available, heights);
    }
    Ok(())
}

#[test]
fn tides() -> Result<(), uktides::Error> {
    let parsed = uktides::tides_from_slice(TIDES_JSON.as_bytes())?;
    assert_eq!(
        parsed.footer_note,
        r#"High waters - important note. The high water duration can occur over an extended time period, i.e. a "high water stand". The predictions give the time and height of high water corresponding to the highest point."#
    );

    assert_eq!(parsed.lunar_phase_list.len(), 1);
    let phase = &parsed.lunar_phase_list[0];
    assert!(same_reading(&phase.date_time, &london(2025, 8, 23, 7, 6, 0)));
    assert_eq!(phase.lunar_phase_type, LunarPhaseType::NewMoon);

    assert_eq!(parsed.tidal_event_list.len(), 2);
    let high = &parsed.tidal_event_list[0];
    assert!(same_reading(&high.date_time, &london(2025, 8, 17, 6, 14, 18)));
    assert_eq!(high.event_type, TidalEventType::HighWater);
    assert_eq!(high.height, Metres(Decimal::new(35317316090102, 13)));
    assert_eq!(high.is_approximate_height, None);
    assert_eq!(high.is_approximate_time, None);
    let low = &parsed.tidal_event_list[1];
    assert!(same_reading(&low.date_time, &london(2025, 8, 17, 11, 48, 32)));
    assert_eq!(low.event_type, TidalEventType::LowWater);
    assert_eq!(low.height, Metres(Decimal::new(15415957943340564, 16)));

    assert_eq!(parsed.tidal_height_occurrence_list.len(), 2);
    let first = &parsed.tidal_height_occurrence_list[0];
    assert!(same_reading(&first.date_time, &london(2025, 8, 18, 0, 0, 0)));
    assert_eq!(first.height, Metres(Decimal::new(1657104, 6)));
    let second = &parsed.tidal_height_occurrence_list[1];
    assert!(same_reading(&second.date_time, &london(2025, 8, 18, 0, 30, 0)));
    assert_eq!(second.height, Metres(Decimal::new(1599734, 6)));
    Ok(())
}
