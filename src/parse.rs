//! Decoders for the station-list and tide-prediction documents.
use vstd::prelude::*;

use crate::error::{Error, Field};
use crate::geo::{Coordinates, DecimalDegrees};
use crate::json::{
    json_document_of, read_json, array_member, bool_member, decimal_member, decimal_value, get_member, member,
    optional_string_member, read_array, read_bool, read_decimal, read_decimal_member,
    read_optional_string, read_string, string_member, JsonValue,
};
use crate::number::decimal_of;
use crate::time::{civil_datetime, decode_civil_datetime, decode_zulu_datetime, zulu_datetime};
use crate::types::{
    country_named, Country, LunarPhase, LunarPhaseType, Metres, Station, StationId, TidalEvent,
    TidalEventType, TidalHeightOccurence, TidePredictions,
};

verus! {

/// A list result with the list as a sequence.
pub open spec fn vec_result<T>(r: Result<Vec<T>, Error>) -> Result<Seq<T>, Error> {
    match r {
        Ok(v) => Ok(v@),
        Err(e) => Err(e),
    }
}

/// Every item decoded by `f`, in order; the first failure where one fails.
pub open spec fn all_of<T>(items: Seq<JsonValue>, f: spec_fn(JsonValue) -> Result<T, Error>) -> Result<Seq<T>, Error>
    decreases items.len(),
{
    if items.len() == 0 {
        Ok(Seq::empty())
    } else {
        match all_of(items.drop_last(), f) {
            Err(e) => Err(e),
            Ok(done) => match f(items.last()) {
                Err(e) => Err(e),
                Ok(x) => Ok(done.push(x)),
            },
        }
    }
}

proof fn lemma_all_of_step<T>(items: Seq<JsonValue>, f: spec_fn(JsonValue) -> Result<T, Error>, i: int)
    requires
        0 <= i < items.len(),
    ensures
        all_of(items.subrange(0, i + 1), f) == (match all_of(items.subrange(0, i), f) {
            Err(e) => Err(e),
            Ok(done) => match f(items[i]) {
                Err(e) => Err(e),
                Ok(x) => Ok(done.push(x)),
            },
        }),
{
    assert(items.subrange(0, i + 1).drop_last() =~= items.subrange(0, i));
}

proof fn lemma_all_of_fails<T>(items: Seq<JsonValue>, f: spec_fn(JsonValue) -> Result<T, Error>, k: int, e: Error)
    requires
        0 <= k <= items.len(),
        all_of(items.subrange(0, k), f) == Err::<Seq<T>, Error>(e),
    ensures
        all_of(items, f) == Err::<Seq<T>, Error>(e),
    decreases items.len() - k,
{
    if k == items.len() {
        assert(items.subrange(0, k) =~= items);
    } else {
        lemma_all_of_step(items, f, k);
        lemma_all_of_fails(items, f, k + 1, e);
    }
}

/// The whole non-negative number that `v` writes, if it writes one.
pub open spec fn code_of(v: JsonValue) -> Option<int> {
    match v {
        JsonValue::Number(t) => match decimal_of(t@) {
            Some(d) => if d.scale == 0 && d.digits >= 0 { Some(d.digits as int) } else { None },
            None => None,
        },
        _ => None,
    }
}

/// A tidal event type read from its wire code.
pub open spec fn event_type_of(v: JsonValue) -> Result<TidalEventType, Error> {
    match v {
        JsonValue::Number(t) => match code_of(v) {
            Some(c) => match TidalEventType::from_code_spec(c) {
                Some(k) => Ok(k),
                None => Err(Error::EventType(t)),
            },
            None => Err(Error::EventType(t)),
        },
        _ => Err(Error::Field(Field::EventType)),
    }
}

/// A lunar phase read from its wire code.
pub open spec fn phase_type_of(v: JsonValue) -> Result<LunarPhaseType, Error> {
    match v {
        JsonValue::Number(t) => match code_of(v) {
            Some(c) => match LunarPhaseType::from_code_spec(c) {
                Some(k) => Ok(k),
                None => Err(Error::LunarPhase(t)),
            },
            None => Err(Error::LunarPhase(t)),
        },
        _ => Err(Error::Field(Field::LunarPhaseType)),
    }
}

/// Reads a whole non-negative number.
fn read_code(v: &JsonValue) -> (r: Option<u64>)
    ensures
        r matches Some(c) ==> code_of(*v) == Some(c as int),
        r is None ==> code_of(*v) is None,
{
    match read_decimal(v, Field::EventType) {
        Ok(d) => if d.scale == 0 && d.digits >= 0 { Some(d.digits as u64) } else { None },
        Err(_) => None,
    }
}

/// Decodes a tidal event type: `0` is high water, `1` low water; any other
/// number fails.
pub fn decode_event_type(v: &JsonValue) -> (r: Result<TidalEventType, Error>)
    ensures
        r == event_type_of(*v),
{
    match v {
        JsonValue::Number(t) => match read_code(v) {
            Some(c) => match TidalEventType::from_code(c) {
                Some(k) => Ok(k),
                None => Err(Error::EventType(t.clone())),
            },
            None => Err(Error::EventType(t.clone())),
        },
        _ => Err(Error::Field(Field::EventType)),
    }
}

/// Decodes a lunar phase: `1` to `4` are the new moon, first quarter, full
/// moon and last quarter; any other number fails.
pub fn decode_lunar_phase_type(v: &JsonValue) -> (r: Result<LunarPhaseType, Error>)
    ensures
        r == phase_type_of(*v),
{
    match v {
        JsonValue::Number(t) => match read_code(v) {
            Some(c) => match LunarPhaseType::from_code(c) {
                Some(k) => Ok(k),
                None => Err(Error::LunarPhase(t.clone())),
            },
            None => Err(Error::LunarPhase(t.clone())),
        },
        _ => Err(Error::Field(Field::LunarPhaseType)),
    }
}

/// The coordinates member of a geometry: an array of exactly two numbers,
/// longitude first.
pub open spec fn coordinates_of(geometry: JsonValue) -> Result<Coordinates, Error> {
    match member(geometry, Field::Coordinates.key_spec()) {
        Some(JsonValue::Array(items)) => if items@.len() == 2 {
            match decimal_value(items@[0], Field::Coordinates) {
                Err(e) => Err(e),
                Ok(longitude) => match decimal_value(items@[1], Field::Coordinates) {
                    Err(e) => Err(e),
                    Ok(latitude) => Ok(
                        Coordinates { longitude: DecimalDegrees(longitude), latitude: DecimalDegrees(latitude) },
                    ),
                },
            }
        } else {
            Err(Error::Field(Field::Coordinates))
        },
        _ => Err(Error::Field(Field::Coordinates)),
    }
}

/// The station that the properties of a feature describe, at `location`.
pub open spec fn station_from_properties(p: JsonValue, location: Coordinates) -> Result<Station, Error> {
    match string_member(p, Field::Id) {
        Err(e) => Err(e),
        Ok(id) => match string_member(p, Field::Name) {
            Err(e) => Err(e),
            Ok(name) => match string_member(p, Field::Country) {
                Err(e) => Err(e),
                Ok(country_name) => match country_named(country_name@) {
                    None => Err(Error::Country(country_name)),
                    Some(country) => match bool_member(p, Field::ContinuousHeightsAvailable) {
                        Err(e) => Err(e),
                        Ok(heights) => Ok(
                            Station {
                                id: StationId(id),
                                name,
                                country,
                                location,
                                continuous_heights_available: heights,
                            },
                        ),
                    },
                },
            },
        },
    }
}

/// The station that one feature of the station list describes. The feature
/// and its geometry must carry a string `type`, whose value is not read.
pub open spec fn station_of(feature: JsonValue) -> Result<Station, Error> {
    match string_member(feature, Field::Type) {
        Err(e) => Err(e),
        Ok(_) => match member(feature, Field::Geometry.key_spec()) {
            None => Err(Error::Field(Field::Geometry)),
            Some(geometry) => match string_member(geometry, Field::Type) {
                Err(e) => Err(e),
                Ok(_) => match coordinates_of(geometry) {
                    Err(e) => Err(e),
                    Ok(location) => match member(feature, Field::Properties.key_spec()) {
                        None => Err(Error::Field(Field::Properties)),
                        Some(p) => station_from_properties(p, location),
                    },
                },
            },
        },
    }
}

pub open spec fn station_decoder() -> spec_fn(JsonValue) -> Result<Station, Error> {
    |v: JsonValue| station_of(v)
}

/// The stations of a station-list document, one per feature and in the
/// features' order; the first failure where any feature fails.
pub open spec fn stations_document(doc: JsonValue) -> Result<Seq<Station>, Error> {
    match array_member(doc, Field::Features) {
        Err(e) => Err(e),
        Ok(items) => all_of(items, station_decoder()),
    }
}

fn decode_coordinates(geometry: &JsonValue) -> (r: Result<Coordinates, Error>)
    ensures
        r == coordinates_of(*geometry),
{
    match get_member(geometry, Field::Coordinates) {
        Some(JsonValue::Array(items)) => {
            if items.len() != 2 {
                return Err(Error::Field(Field::Coordinates));
            }
            let longitude = match read_decimal(&items[0], Field::Coordinates) {
                Ok(d) => d,
                Err(e) => { return Err(e); },
            };
            let latitude = match read_decimal(&items[1], Field::Coordinates) {
                Ok(d) => d,
                Err(e) => { return Err(e); },
            };
            Ok(Coordinates { longitude: DecimalDegrees(longitude), latitude: DecimalDegrees(latitude) })
        },
        _ => Err(Error::Field(Field::Coordinates)),
    }
}

fn decode_properties(p: &JsonValue, location: Coordinates) -> (r: Result<Station, Error>)
    ensures
        r == station_from_properties(*p, location),
{
    let id = match read_string(p, Field::Id) {
        Ok(s) => s,
        Err(e) => { return Err(e); },
    };
    let name = match read_string(p, Field::Name) {
        Ok(s) => s,
        Err(e) => { return Err(e); },
    };
    let country_name = match read_string(p, Field::Country) {
        Ok(s) => s,
        Err(e) => { return Err(e); },
    };
    let country = match Country::from_name(&country_name) {
        Some(c) => c,
        None => { return Err(Error::Country(country_name)); },
    };
    let heights = match read_bool(p, Field::ContinuousHeightsAvailable) {
        Ok(b) => b,
        Err(e) => { return Err(e); },
    };
    Ok(Station { id: StationId(id), name, country, location, continuous_heights_available: heights })
}

/// Decodes one feature of a station list into a flat station.
pub fn decode_station(feature: &JsonValue) -> (r: Result<Station, Error>)
    ensures
        r == station_of(*feature),
{
    if let Err(e) = read_string(feature, Field::Type) {
        return Err(e);
    }
    let geometry = match get_member(feature, Field::Geometry) {
        Some(g) => g,
        None => { return Err(Error::Field(Field::Geometry)); },
    };
    if let Err(e) = read_string(geometry, Field::Type) {
        return Err(e);
    }
    let location = match decode_coordinates(geometry) {
        Ok(c) => c,
        Err(e) => { return Err(e); },
    };
    match get_member(feature, Field::Properties) {
        Some(p) => decode_properties(p, location),
        None => Err(Error::Field(Field::Properties)),
    }
}

/// Decodes a station-list document: a feature collection whose features each
/// describe one station. One bad feature fails the whole list.
pub fn decode_stations(doc: &JsonValue) -> (r: Result<Vec<Station>, Error>)
    ensures
        vec_result(r) == stations_document(*doc),
{
    let items = match read_array(doc, Field::Features) {
        Ok(items) => items,
        Err(e) => { return Err(e); },
    };
    let mut out: Vec<Station> = Vec::new();
    let mut i: usize = 0;
    assert(items@.subrange(0, 0) =~= Seq::<JsonValue>::empty());
    while i < items.len()
        invariant
            i <= items@.len(),
            array_member(*doc, Field::Features) == Ok::<Seq<JsonValue>, Error>(items@),
            all_of(items@.subrange(0, i as int), station_decoder()) == Ok::<Seq<Station>, Error>(out@),
        decreases items.len() - i,
    {
        proof {
            lemma_all_of_step(items@, station_decoder(), i as int);
        }
        match decode_station(&items[i]) {
            Ok(s) => out.push(s),
            Err(e) => {
                proof {
                    lemma_all_of_fails(items@, station_decoder(), i + 1, e);
                }
                return Err(e);
            },
        }
        i = i + 1;
    }
    assert(items@.subrange(0, i as int) =~= items@);
    Ok(out)
}

/// A lunar phase: a zone-less `dateTime` and a `lunarPhaseType` code.
pub open spec fn lunar_phase_of(v: JsonValue) -> Result<LunarPhase, Error> {
    match string_member(v, Field::DateTime) {
        Err(e) => Err(e),
        Ok(text) => match civil_datetime(text) {
            Err(e) => Err(e),
            Ok(date_time) => match member(v, Field::LunarPhaseType.key_spec()) {
                None => Err(Error::Field(Field::LunarPhaseType)),
                Some(code) => match phase_type_of(code) {
                    Err(e) => Err(e),
                    Ok(lunar_phase_type) => Ok(LunarPhase { date_time, lunar_phase_type }),
                },
            },
        },
    }
}

/// A tidal event: a zone-less `dateTime`, an `eventType` code, a `height`,
/// and two optional strings.
pub open spec fn tidal_event_of(v: JsonValue) -> Result<TidalEvent, Error> {
    match string_member(v, Field::DateTime) {
        Err(e) => Err(e),
        Ok(text) => match civil_datetime(text) {
            Err(e) => Err(e),
            Ok(date_time) => match member(v, Field::EventType.key_spec()) {
                None => Err(Error::Field(Field::EventType)),
                Some(code) => match event_type_of(code) {
                    Err(e) => Err(e),
                    Ok(event_type) => match decimal_member(v, Field::Height) {
                        Err(e) => Err(e),
                        Ok(height) => match optional_string_member(v, Field::IsApproximateHeight) {
                            Err(e) => Err(e),
                            Ok(is_approximate_height) => match optional_string_member(v, Field::IsApproximateTime) {
                                Err(e) => Err(e),
                                Ok(is_approximate_time) => Ok(
                                    TidalEvent {
                                        date_time,
                                        event_type,
                                        height: Metres(height),
                                        is_approximate_height,
                                        is_approximate_time,
                                    },
                                ),
                            },
                        },
                    },
                },
            },
        },
    }
}

/// A half-hourly height: an RFC 3339 `dateTime` and a `height`.
pub open spec fn height_occurrence_of(v: JsonValue) -> Result<TidalHeightOccurence, Error> {
    match string_member(v, Field::DateTime) {
        Err(e) => Err(e),
        Ok(text) => match zulu_datetime(text) {
            Err(e) => Err(e),
            Ok(date_time) => match decimal_member(v, Field::Height) {
                Err(e) => Err(e),
                Ok(height) => Ok(TidalHeightOccurence { date_time, height: Metres(height) }),
            },
        },
    }
}

pub open spec fn lunar_phase_decoder() -> spec_fn(JsonValue) -> Result<LunarPhase, Error> {
    |v: JsonValue| lunar_phase_of(v)
}

pub open spec fn tidal_event_decoder() -> spec_fn(JsonValue) -> Result<TidalEvent, Error> {
    |v: JsonValue| tidal_event_of(v)
}

pub open spec fn height_occurrence_decoder() -> spec_fn(JsonValue) -> Result<TidalHeightOccurence, Error> {
    |v: JsonValue| height_occurrence_of(v)
}

/// The model of a decoded prediction document.
pub struct PredictionsModel {
    pub footer_note: String,
    pub lunar_phase_list: Seq<LunarPhase>,
    pub tidal_event_list: Seq<TidalEvent>,
    pub tidal_height_occurrence_list: Seq<TidalHeightOccurence>,
}

impl TidePredictions {
    /// The predictions with their lists as sequences.
    pub open spec fn model(self) -> PredictionsModel {
        PredictionsModel {
            footer_note: self.footer_note,
            lunar_phase_list: self.lunar_phase_list@,
            tidal_event_list: self.tidal_event_list@,
            tidal_height_occurrence_list: self.tidal_height_occurrence_list@,
        }
    }
}

/// A prediction result with its lists as sequences.
pub open spec fn predictions_result(r: Result<TidePredictions, Error>) -> Result<PredictionsModel, Error> {
    match r {
        Ok(p) => Ok(p.model()),
        Err(e) => Err(e),
    }
}

/// The predictions of a prediction document: the footer note, then the
/// lunar phases, tidal events and height occurrences, each list decoded item
/// by item; the first failure where anything fails. The lists are not checked
/// against each other, and any of them may be empty.
pub open spec fn predictions_document(doc: JsonValue) -> Result<PredictionsModel, Error> {
    match string_member(doc, Field::FooterNote) {
        Err(e) => Err(e),
        Ok(footer_note) => match array_member(doc, Field::LunarPhaseList) {
            Err(e) => Err(e),
            Ok(phases) => match all_of(phases, lunar_phase_decoder()) {
                Err(e) => Err(e),
                Ok(lunar_phase_list) => match array_member(doc, Field::TidalEventList) {
                    Err(e) => Err(e),
                    Ok(events) => match all_of(events, tidal_event_decoder()) {
                        Err(e) => Err(e),
                        Ok(tidal_event_list) => match array_member(doc, Field::TidalHeightOccurrenceList) {
                            Err(e) => Err(e),
                            Ok(heights) => match all_of(heights, height_occurrence_decoder()) {
                                Err(e) => Err(e),
                                Ok(tidal_height_occurrence_list) => Ok(
                                    PredictionsModel {
                                        footer_note,
                                        lunar_phase_list,
                                        tidal_event_list,
                                        tidal_height_occurrence_list,
                                    },
                                ),
                            },
                        },
                    },
                },
            },
        },
    }
}

/// Decodes one lunar phase.
pub fn decode_lunar_phase(v: &JsonValue) -> (r: Result<LunarPhase, Error>)
    ensures
        r == lunar_phase_of(*v),
{
    let text = match read_string(v, Field::DateTime) {
        Ok(s) => s,
        Err(e) => { return Err(e); },
    };
    let date_time = match decode_civil_datetime(&text) {
        Ok(z) => z,
        Err(e) => { return Err(e); },
    };
    let lunar_phase_type = match get_member(v, Field::LunarPhaseType) {
        Some(code) => match decode_lunar_phase_type(code) {
            Ok(k) => k,
            Err(e) => { return Err(e); },
        },
        None => { return Err(Error::Field(Field::LunarPhaseType)); },
    };
    Ok(LunarPhase { date_time, lunar_phase_type })
}

/// Decodes one tidal event.
pub fn decode_tidal_event(v: &JsonValue) -> (r: Result<TidalEvent, Error>)
    ensures
        r == tidal_event_of(*v),
{
    let text = match read_string(v, Field::DateTime) {
        Ok(s) => s,
        Err(e) => { return Err(e); },
    };
    let date_time = match decode_civil_datetime(&text) {
        Ok(z) => z,
        Err(e) => { return Err(e); },
    };
    let event_type = match get_member(v, Field::EventType) {
        Some(code) => match decode_event_type(code) {
            Ok(k) => k,
            Err(e) => { return Err(e); },
        },
        None => { return Err(Error::Field(Field::EventType)); },
    };
    let height = match read_decimal_member(v, Field::Height) {
        Ok(d) => d,
        Err(e) => { return Err(e); },
    };
    let is_approximate_height = match read_optional_string(v, Field::IsApproximateHeight) {
        Ok(o) => o,
        Err(e) => { return Err(e); },
    };
    let is_approximate_time = match read_optional_string(v, Field::IsApproximateTime) {
        Ok(o) => o,
        Err(e) => { return Err(e); },
    };
    Ok(TidalEvent { date_time, event_type, height: Metres(height), is_approximate_height, is_approximate_time })
}

/// Decodes one half-hourly height.
pub fn decode_height_occurrence(v: &JsonValue) -> (r: Result<TidalHeightOccurence, Error>)
    ensures
        r == height_occurrence_of(*v),
{
    let text = match read_string(v, Field::DateTime) {
        Ok(s) => s,
        Err(e) => { return Err(e); },
    };
    let date_time = match decode_zulu_datetime(&text) {
        Ok(z) => z,
        Err(e) => { return Err(e); },
    };
    let height = match read_decimal_member(v, Field::Height) {
        Ok(d) => d,
        Err(e) => { return Err(e); },
    };
    Ok(TidalHeightOccurence { date_time, height: Metres(height) })
}

fn decode_lunar_phases(items: &Vec<JsonValue>) -> (r: Result<Vec<LunarPhase>, Error>)
    ensures
        vec_result(r) == all_of(items@, lunar_phase_decoder()),
{
    let mut out: Vec<LunarPhase> = Vec::new();
    let mut i: usize = 0;
    assert(items@.subrange(0, 0) =~= Seq::<JsonValue>::empty());
    while i < items.len()
        invariant
            i <= items@.len(),
            all_of(items@.subrange(0, i as int), lunar_phase_decoder()) == Ok::<Seq<LunarPhase>, Error>(out@),
        decreases items.len() - i,
    {
        proof {
            lemma_all_of_step(items@, lunar_phase_decoder(), i as int);
        }
        match decode_lunar_phase(&items[i]) {
            Ok(x) => out.push(x),
            Err(e) => {
                proof {
                    lemma_all_of_fails(items@, lunar_phase_decoder(), i + 1, e);
                }
                return Err(e);
            },
        }
        i = i + 1;
    }
    assert(items@.subrange(0, i as int) =~= items@);
    Ok(out)
}

fn decode_tidal_events(items: &Vec<JsonValue>) -> (r: Result<Vec<TidalEvent>, Error>)
    ensures
        vec_result(r) == all_of(items@, tidal_event_decoder()),
{
    let mut out: Vec<TidalEvent> = Vec::new();
    let mut i: usize = 0;
    assert(items@.subrange(0, 0) =~= Seq::<JsonValue>::empty());
    while i < items.len()
        invariant
            i <= items@.len(),
            all_of(items@.subrange(0, i as int), tidal_event_decoder()) == Ok::<Seq<TidalEvent>, Error>(out@),
        decreases items.len() - i,
    {
        proof {
            lemma_all_of_step(items@, tidal_event_decoder(), i as int);
        }
        match decode_tidal_event(&items[i]) {
            Ok(x) => out.push(x),
            Err(e) => {
                proof {
                    lemma_all_of_fails(items@, tidal_event_decoder(), i + 1, e);
                }
                return Err(e);
            },
        }
        i = i + 1;
    }
    assert(items@.subrange(0, i as int) =~= items@);
    Ok(out)
}

fn decode_height_occurrences(items: &Vec<JsonValue>) -> (r: Result<Vec<TidalHeightOccurence>, Error>)
    ensures
        vec_result(r) == all_of(items@, height_occurrence_decoder()),
{
    let mut out: Vec<TidalHeightOccurence> = Vec::new();
    let mut i: usize = 0;
    assert(items@.subrange(0, 0) =~= Seq::<JsonValue>::empty());
    while i < items.len()
        invariant
            i <= items@.len(),
            all_of(items@.subrange(0, i as int), height_occurrence_decoder()) == Ok::<Seq<TidalHeightOccurence>, Error>(out@),
        decreases items.len() - i,
    {
        proof {
            lemma_all_of_step(items@, height_occurrence_decoder(), i as int);
        }
        match decode_height_occurrence(&items[i]) {
            Ok(x) => out.push(x),
            Err(e) => {
                proof {
                    lemma_all_of_fails(items@, height_occurrence_decoder(), i + 1, e);
                }
                return Err(e);
            },
        }
        i = i + 1;
    }
    assert(items@.subrange(0, i as int) =~= items@);
    Ok(out)
}

/// Decodes a prediction document.
pub fn decode_predictions(doc: &JsonValue) -> (r: Result<TidePredictions, Error>)
    ensures
        predictions_result(r) == predictions_document(*doc),
{
    let footer_note = match read_string(doc, Field::FooterNote) {
        Ok(s) => s,
        Err(e) => { return Err(e); },
    };
    let lunar_phase_list = match read_array(doc, Field::LunarPhaseList) {
        Ok(items) => match decode_lunar_phases(items) {
            Ok(v) => v,
            Err(e) => { return Err(e); },
        },
        Err(e) => { return Err(e); },
    };
    let tidal_event_list = match read_array(doc, Field::TidalEventList) {
        Ok(items) => match decode_tidal_events(items) {
            Ok(v) => v,
            Err(e) => { return Err(e); },
        },
        Err(e) => { return Err(e); },
    };
    let tidal_height_occurrence_list = match read_array(doc, Field::TidalHeightOccurrenceList) {
        Ok(items) => match decode_height_occurrences(items) {
            Ok(v) => v,
            Err(e) => { return Err(e); },
        },
        Err(e) => { return Err(e); },
    };
    Ok(TidePredictions { footer_note, lunar_phase_list, tidal_event_list, tidal_height_occurrence_list })
}

/// Decodes the station-list document that `bytes` hold.
pub fn stations_from_slice(bytes: &[u8]) -> (r: Result<Vec<Station>, Error>)
    ensures
        json_document_of(bytes@) is None ==> r matches Err(Error::Syntax(_)),
        json_document_of(bytes@) matches Some(doc) ==> vec_result(r) == stations_document(doc),
{
    match read_json(bytes) {
        Ok(doc) => decode_stations(&doc),
        Err(message) => Err(Error::Syntax(message)),
    }
}

/// Decodes the prediction document that `bytes` hold.
pub fn tides_from_slice(bytes: &[u8]) -> (r: Result<TidePredictions, Error>)
    ensures
        json_document_of(bytes@) is None ==> r matches Err(Error::Syntax(_)),
        json_document_of(bytes@) matches Some(doc) ==> predictions_result(r) == predictions_document(doc),
{
    match read_json(bytes) {
        Ok(doc) => decode_predictions(&doc),
        Err(message) => Err(Error::Syntax(message)),
    }
}

/// A station list is all or nothing: where any one feature fails to decode,
/// the whole document fails.
pub proof fn lemma_station_list_all_or_nothing(doc: JsonValue, k: int)
    requires
        array_member(doc, Field::Features) matches Ok(items) && 0 <= k < items.len()
            && station_of(items[k]) is Err,
    ensures
        stations_document(doc) is Err,
{
    let items = array_member(doc, Field::Features)->Ok_0;
    lemma_all_of_step(items, station_decoder(), k);
    let e = all_of(items.subrange(0, k + 1), station_decoder())->Err_0;
    lemma_all_of_fails(items, station_decoder(), k + 1, e);
}

/// Decoded stations keep the features' order: where the document decodes,
/// the station at each position is the one that the feature at that
/// position describes.
pub proof fn lemma_station_order(doc: JsonValue, k: int)
    requires
        stations_document(doc) is Ok,
        array_member(doc, Field::Features) matches Ok(items) && 0 <= k < items.len(),
    ensures
        stations_document(doc)->Ok_0.len() == array_member(doc, Field::Features)->Ok_0.len(),
        station_of(array_member(doc, Field::Features)->Ok_0[k]) == Ok::<Station, Error>(stations_document(doc)->Ok_0[k]),
{
    lemma_all_of_items(array_member(doc, Field::Features)->Ok_0, station_decoder(), k);
}

proof fn lemma_all_of_items<T>(items: Seq<JsonValue>, f: spec_fn(JsonValue) -> Result<T, Error>, k: int)
    requires
        all_of(items, f) is Ok,
        0 <= k < items.len(),
    ensures
        all_of(items, f)->Ok_0.len() == items.len(),
        f(items[k]) == Ok::<T, Error>(all_of(items, f)->Ok_0[k]),
    decreases items.len(),
{
    let rest = items.drop_last();
    if k < items.len() - 1 {
        lemma_all_of_items(rest, f, k);
        assert(rest[k] == items[k]);
    } else if items.len() > 1 {
        lemma_all_of_items(rest, f, 0);
    }
}

/// An empty list of half-hourly heights is no failure: a prediction document
/// whose height list is empty decodes exactly where its note, phases and
/// events do, and then with no heights.
pub proof fn lemma_no_heights(doc: JsonValue)
    requires
        array_member(doc, Field::TidalHeightOccurrenceList) == Ok::<Seq<JsonValue>, Error>(Seq::empty()),
    ensures
        predictions_document(doc) is Ok <==> (string_member(doc, Field::FooterNote) is Ok
            && (array_member(doc, Field::LunarPhaseList) matches Ok(p) && all_of(p, lunar_phase_decoder()) is Ok)
            && (array_member(doc, Field::TidalEventList) matches Ok(e) && all_of(e, tidal_event_decoder()) is Ok)),
        predictions_document(doc) matches Ok(m) ==> m.tidal_height_occurrence_list.len() == 0,
{
    assert(all_of(Seq::<JsonValue>::empty(), height_occurrence_decoder()) == Ok::<Seq<TidalHeightOccurence>, Error>(Seq::empty()));
}

} // verus!
