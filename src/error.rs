//! The decoders' error type.
use vstd::prelude::*;

verus! {

/// A member of the station or prediction documents that a decoder reads.
#[derive(Debug, Clone, Copy, PartialEq, Eq, Structural)]
pub enum Field {
    Type,
    Features,
    Geometry,
    Properties,
    Coordinates,
    Id,
    Name,
    Country,
    ContinuousHeightsAvailable,
    FooterNote,
    LunarPhaseList,
    TidalEventList,
    TidalHeightOccurrenceList,
    DateTime,
    EventType,
    Height,
    IsApproximateHeight,
    IsApproximateTime,
    LunarPhaseType,
}

impl Field {
    /// The member's key in the wire format.
    pub open spec fn key_spec(self) -> Seq<char> {
        match self {
            Field::Type => "type"@,
            Field::Features => "features"@,
            Field::Geometry => "geometry"@,
            Field::Properties => "properties"@,
            Field::Coordinates => "coordinates"@,
            Field::Id => "Id"@,
            Field::Name => "Name"@,
            Field::Country => "Country"@,
            Field::ContinuousHeightsAvailable => "ContinuousHeightsAvailable"@,
            Field::FooterNote => "footerNote"@,
            Field::LunarPhaseList => "lunarPhaseList"@,
            Field::TidalEventList => "tidalEventList"@,
            Field::TidalHeightOccurrenceList => "tidalHeightOccurrenceList"@,
            Field::DateTime => "dateTime"@,
            Field::EventType => "eventType"@,
            Field::Height => "height"@,
            Field::IsApproximateHeight => "isApproximateHeight"@,
            Field::IsApproximateTime => "isApproximateTime"@,
            Field::LunarPhaseType => "lunarPhaseType"@,
        }
    }

    /// The member's key in the wire format.
    pub fn key(&self) -> (r: String)
        ensures
            r@ == self.key_spec(),
    {
        match self {
            Field::Type => "type".to_owned(),
            Field::Features => "features".to_owned(),
            Field::Geometry => "geometry".to_owned(),
            Field::Properties => "properties".to_owned(),
            Field::Coordinates => "coordinates".to_owned(),
            Field::Id => "Id".to_owned(),
            Field::Name => "Name".to_owned(),
            Field::Country => "Country".to_owned(),
            Field::ContinuousHeightsAvailable => "ContinuousHeightsAvailable".to_owned(),
            Field::FooterNote => "footerNote".to_owned(),
            Field::LunarPhaseList => "lunarPhaseList".to_owned(),
            Field::TidalEventList => "tidalEventList".to_owned(),
            Field::TidalHeightOccurrenceList => "tidalHeightOccurrenceList".to_owned(),
            Field::DateTime => "dateTime".to_owned(),
            Field::EventType => "eventType".to_owned(),
            Field::Height => "height".to_owned(),
            Field::IsApproximateHeight => "isApproximateHeight".to_owned(),
            Field::IsApproximateTime => "isApproximateTime".to_owned(),
            Field::LunarPhaseType => "lunarPhaseType".to_owned(),
        }
    }
}

/// Why a document could not be decoded. Every failure is terminal for the
/// document: no partial result is returned.
#[derive(Debug)]
pub enum Error {
    /// The bytes are not a JSON document; the JSON reader's message.
    Syntax(String),
    /// A member is absent, or holds a value of another JSON kind than the one
    /// expected (for coordinates: anything but an array of two numbers).
    Field(Field),
    /// A number whose exact decimal form does not fit: more digits than an
    /// `i64` holds, or more decimal places than a `u32` counts.
    Number(String),
    /// A country name outside the known set.
    Country(String),
    /// A tidal event type code other than `0` or `1`.
    EventType(String),
    /// A lunar phase code outside `1..=4`.
    LunarPhase(String),
    /// A date and time that cannot be read.
    DateTime(String),
}

} // verus!
