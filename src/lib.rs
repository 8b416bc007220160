//! Decoding of tide-station lists and tide predictions published by the UK
//! Hydrographic Office's EasyTide service.
//!
//! The library performs no network I/O: callers fetch the JSON documents with
//! the HTTP client of their choice and hand the bytes to
//! [`stations_from_slice`] or [`tides_from_slice`].
pub mod error;
pub mod geo;
pub mod json;
pub mod number;
pub mod parse;
pub mod text;
pub mod time;
pub mod types;
pub mod urls;

pub use crate::error::{Error, Field};
pub use crate::geo::{Coordinates, DecimalDegrees};
pub use crate::json::JsonValue;
pub use crate::number::{parse_decimal, Decimal};
pub use crate::parse::{
    decode_event_type, decode_height_occurrence, decode_lunar_phase, decode_lunar_phase_type,
    decode_predictions, decode_station, decode_stations, decode_tidal_event, stations_from_slice,
    tides_from_slice,
};
pub use crate::time::{
    decode_civil_datetime, decode_zulu_datetime, CivilDateTime, Date, Instant, ZonedDateTime,
};
pub use crate::types::{
    find_station, Country, LunarPhase, LunarPhaseType, Metres, Station, StationId, TidalEvent, TidalEventType,
    TidalHeightOccurence, TidePredictions,
};
pub use crate::urls::{stations_list_url, tide_predictions_url};
