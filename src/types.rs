//! The domain model: stations, tide events, heights and lunar phases.
use vstd::prelude::*;

use crate::geo::Coordinates;
use crate::number::Decimal;
use crate::text::chars_of;
use crate::error::Error;
use crate::time::{instant_lt, Date, ZonedDateTime};
use vstd::std_specs::cmp::{PartialEqSpec, PartialOrdSpec};

verus! {

/// Identifier of a tidal station, used to request its predictions.
///
/// Not a number: leading zeros are significant (`0053`) and some identifiers
/// carry a letter suffix (`0297A`).
#[derive(Debug, Clone, PartialOrd, Ord)]
pub struct StationId(pub String);

impl PartialEq for StationId {
    fn eq(&self, other: &StationId) -> (r: bool) {
        self.0 == other.0
    }
}

impl vstd::std_specs::cmp::PartialEqSpecImpl for StationId {
    open spec fn obeys_eq_spec() -> bool {
        true
    }

    open spec fn eq_spec(&self, other: &StationId) -> bool {
        self.0@ == other.0@
    }
}

impl Eq for StationId {}

impl From<String> for StationId {
    fn from(value: String) -> (r: StationId) {
        StationId(value)
    }
}

impl vstd::std_specs::convert::FromSpecImpl<String> for StationId {
    open spec fn obeys_from_spec() -> bool {
        true
    }

    open spec fn from_spec(value: String) -> StationId {
        StationId(value)
    }
}

impl StationId {
    /// The identifier `text`, as written.
    pub fn new(text: &str) -> (r: StationId)
        ensures
            r.0@ == text@,
    {
        StationId(text.to_owned())
    }

    /// The identifier as written.
    pub fn to_string(&self) -> (r: String)
        ensures
            r@ == self.0@,
    {
        self.0.clone()
    }
}

/// Country in which a tidal station stands.
#[derive(Debug, Clone, Copy, PartialEq, Eq, Structural)]
pub enum Country {
    ChannelIslands,
    England,
    Ireland,
    IsleOfMan,
    NorthernIreland,
    Scotland,
    Wales,
}

/// The country that `name` names, if any.
pub open spec fn country_named(name: Seq<char>) -> Option<Country> {
    if name == "Channel Islands"@ {
        Some(Country::ChannelIslands)
    } else if name == "England"@ {
        Some(Country::England)
    } else if name == "Ireland"@ {
        Some(Country::Ireland)
    } else if name == "Isle of Man"@ {
        Some(Country::IsleOfMan)
    } else if name == "Northern Ireland"@ {
        Some(Country::NorthernIreland)
    } else if name == "Scotland"@ {
        Some(Country::Scotland)
    } else if name == "Wales"@ {
        Some(Country::Wales)
    } else {
        None
    }
}

impl Country {
    /// The country's name as the wire format and displays write it.
    pub open spec fn name_spec(self) -> Seq<char> {
        match self {
            Country::ChannelIslands => "Channel Islands"@,
            Country::England => "England"@,
            Country::Ireland => "Ireland"@,
            Country::IsleOfMan => "Isle of Man"@,
            Country::NorthernIreland => "Northern Ireland"@,
            Country::Scotland => "Scotland"@,
            Country::Wales => "Wales"@,
        }
    }

    /// The country's name (`Isle of Man` for `IsleOfMan`).
    pub fn to_string(&self) -> (r: String)
        ensures
            r@ == self.name_spec(),
    {
        match self {
            Country::ChannelIslands => "Channel Islands".to_owned(),
            Country::England => "England".to_owned(),
            Country::Ireland => "Ireland".to_owned(),
            Country::IsleOfMan => "Isle of Man".to_owned(),
            Country::NorthernIreland => "Northern Ireland".to_owned(),
            Country::Scotland => "Scotland".to_owned(),
            Country::Wales => "Wales".to_owned(),
        }
    }

    /// The country that `name` names; `None` for any other text.
    pub fn from_name(name: &String) -> (r: Option<Country>)
        ensures
            r == country_named(name@),
    {
        if *name == "Channel Islands".to_owned() {
            Some(Country::ChannelIslands)
        } else if *name == "England".to_owned() {
            Some(Country::England)
        } else if *name == "Ireland".to_owned() {
            Some(Country::Ireland)
        } else if *name == "Isle of Man".to_owned() {
            Some(Country::IsleOfMan)
        } else if *name == "Northern Ireland".to_owned() {
            Some(Country::NorthernIreland)
        } else if *name == "Scotland".to_owned() {
            Some(Country::Scotland)
        } else if *name == "Wales".to_owned() {
            Some(Country::Wales)
        } else {
            None
        }
    }
}

impl std::str::FromStr for Country {
    type Err = Error;

    fn from_str(s: &str) -> Result<Country, Error> {
        let name = s.to_owned();
        match Country::from_name(&name) {
            Some(c) => Ok(c),
            None => Err(Error::Country(name)),
        }
    }
}

/// Names and countries match one for one: each country is read back from its
/// name, and a name that is read gives the country whose name it is.
pub proof fn lemma_country_names(c: Country, name: Seq<char>)
    ensures
        country_named(c.name_spec()) == Some(c),
        country_named(name) matches Some(d) ==> d.name_spec() == name,
{
    reveal_strlit("Channel Islands");
    reveal_strlit("England");
    reveal_strlit("Ireland");
    reveal_strlit("Isle of Man");
    reveal_strlit("Northern Ireland");
    reveal_strlit("Scotland");
    reveal_strlit("Wales");
    assert("Channel Islands"@.len() == 15);
    assert("England"@.len() == 7);
    assert("Ireland"@.len() == 7);
    assert("Isle of Man"@.len() == 11);
    assert("Northern Ireland"@.len() == 16);
    assert("Scotland"@.len() == 8);
    assert("Wales"@.len() == 5);
    assert("England"@[0] != "Ireland"@[0]);
}

/// Details of one tidal station. Stations are told apart by identifier alone.
#[derive(Debug, Clone)]
pub struct Station {
    /// Identifier used to request the station's predictions.
    pub id: StationId,
    /// Name of the station's location.
    pub name: String,
    /// Country in which the station stands.
    pub country: Country,
    /// Where the station stands.
    pub location: Coordinates,
    /// Whether the station gives half-hourly height predictions.
    pub continuous_heights_available: bool,
}

impl PartialEq for Station {
    fn eq(&self, other: &Station) -> (r: bool) {
        self.id.0 == other.id.0
    }
}

impl vstd::std_specs::cmp::PartialEqSpecImpl for Station {
    open spec fn obeys_eq_spec() -> bool {
        true
    }

    open spec fn eq_spec(&self, other: &Station) -> bool {
        self.id.0@ == other.id.0@
    }
}

impl Eq for Station {}

/// Lexicographic order of texts by code point, which is the order of their
/// UTF-8 bytes and so that of `String`.
pub open spec fn text_cmp(a: Seq<char>, b: Seq<char>) -> std::cmp::Ordering
    decreases a.len(),
{
    if a.len() == 0 {
        if b.len() == 0 { std::cmp::Ordering::Equal } else { std::cmp::Ordering::Less }
    } else if b.len() == 0 {
        std::cmp::Ordering::Greater
    } else if a[0] < b[0] {
        std::cmp::Ordering::Less
    } else if a[0] > b[0] {
        std::cmp::Ordering::Greater
    } else {
        text_cmp(a.drop_first(), b.drop_first())
    }
}

/// Compares two texts by code point.
fn compare_text(a: &String, b: &String) -> (r: std::cmp::Ordering)
    ensures
        r == text_cmp(a@, b@),
{
    let x = chars_of(a.as_str());
    let y = chars_of(b.as_str());
    let mut i: usize = 0;
    assert(x@.subrange(0, x@.len() as int) =~= x@);
    assert(y@.subrange(0, y@.len() as int) =~= y@);
    while i < x.len() && i < y.len() && x[i] == y[i]
        invariant
            i <= x@.len(),
            i <= y@.len(),
            text_cmp(x@, y@) == text_cmp(x@.subrange(i as int, x@.len() as int), y@.subrange(i as int, y@.len() as int)),
        decreases x.len() - i,
    {
        proof {
            let xs = x@.subrange(i as int, x@.len() as int);
            let ys = y@.subrange(i as int, y@.len() as int);
            assert(xs.drop_first() =~= x@.subrange(i as int + 1, x@.len() as int));
            assert(ys.drop_first() =~= y@.subrange(i as int + 1, y@.len() as int));
        }
        i = i + 1;
    }
    let ghost xs = x@.subrange(i as int, x@.len() as int);
    let ghost ys = y@.subrange(i as int, y@.len() as int);
    assert(i < x@.len() ==> xs[0] == x@[i as int]);
    assert(i < y@.len() ==> ys[0] == y@[i as int]);
    if i == x.len() {
        if i == y.len() { std::cmp::Ordering::Equal } else { std::cmp::Ordering::Less }
    } else if i == y.len() {
        std::cmp::Ordering::Greater
    } else if x[i] < y[i] {
        std::cmp::Ordering::Less
    } else {
        std::cmp::Ordering::Greater
    }
}

impl PartialOrd for Station {
    fn partial_cmp(&self, other: &Station) -> (r: Option<std::cmp::Ordering>) {
        Some(compare_text(&self.id.0, &other.id.0))
    }
}

impl vstd::std_specs::cmp::PartialOrdSpecImpl for Station {
    open spec fn obeys_partial_cmp_spec() -> bool {
        true
    }

    open spec fn partial_cmp_spec(&self, other: &Station) -> Option<std::cmp::Ordering> {
        Some(text_cmp(self.id.0@, other.id.0@))
    }
}

/// Position of the first station in `stations` with identifier `id`.
pub fn find_station(stations: &Vec<Station>, id: &StationId) -> (r: Option<usize>)
    ensures
        r matches Some(i) ==> i < stations@.len() && stations@[i as int].id.0@ == id.0@
            && forall|j: int| 0 <= j < i ==> stations@[j].id.0@ != id.0@,
        r is None ==> forall|j: int| 0 <= j < stations@.len() ==> stations@[j].id.0@ != id.0@,
{
    let mut i: usize = 0;
    while i < stations.len()
        invariant
            i <= stations@.len(),
            forall|j: int| 0 <= j < i ==> stations@[j].id.0@ != id.0@,
        decreases stations.len() - i,
    {
        if stations[i].id.0 == id.0 {
            return Some(i);
        }
        i = i + 1;
    }
    None
}

/// Two stations are equal exactly when their identifiers are, whatever
/// their names, countries, locations or height flags.
pub proof fn lemma_station_identity(a: Station, b: Station)
    ensures
        a.eq_spec(&b) <==> a.id.0@ == b.id.0@,
{
}

/// A tide height in metres.
#[derive(Debug, Clone, Copy, PartialEq, Eq, Structural)]
pub struct Metres(pub Decimal);

/// High or low water.
#[derive(Debug, Clone, Copy, PartialEq, Eq, Structural)]
pub enum TidalEventType {
    HighWater,
    LowWater,
}

impl TidalEventType {
    /// The type with wire code `code`: `0` for high water, `1` for low water.
    pub open spec fn from_code_spec(code: int) -> Option<TidalEventType> {
        if code == 0 {
            Some(TidalEventType::HighWater)
        } else if code == 1 {
            Some(TidalEventType::LowWater)
        } else {
            None
        }
    }

    pub fn from_code(code: u64) -> (r: Option<TidalEventType>)
        ensures
            r == Self::from_code_spec(code as int),
    {
        match code {
            0 => Some(TidalEventType::HighWater),
            1 => Some(TidalEventType::LowWater),
            _ => None,
        }
    }

    /// `High tide` or `Low tide`.
    pub fn to_string(&self) -> (r: String)
        ensures
            r@ == (match self {
                TidalEventType::HighWater => "High tide"@,
                TidalEventType::LowWater => "Low tide"@,
            }),
    {
        match self {
            TidalEventType::HighWater => "High tide".to_owned(),
            TidalEventType::LowWater => "Low tide".to_owned(),
        }
    }
}

/// A phase of the moon.
#[derive(Debug, Clone, Copy, PartialEq, Eq, Structural)]
pub enum LunarPhaseType {
    NewMoon,
    FirstQuarter,
    FullMoon,
    LastQuarter,
}

impl LunarPhaseType {
    /// The phase with wire code `code`, `1` to `4` in the order of the phases.
    pub open spec fn from_code_spec(code: int) -> Option<LunarPhaseType> {
        if code == 1 {
            Some(LunarPhaseType::NewMoon)
        } else if code == 2 {
            Some(LunarPhaseType::FirstQuarter)
        } else if code == 3 {
            Some(LunarPhaseType::FullMoon)
        } else if code == 4 {
            Some(LunarPhaseType::LastQuarter)
        } else {
            None
        }
    }

    pub fn from_code(code: u64) -> (r: Option<LunarPhaseType>)
        ensures
            r == Self::from_code_spec(code as int),
    {
        match code {
            1 => Some(LunarPhaseType::NewMoon),
            2 => Some(LunarPhaseType::FirstQuarter),
            3 => Some(LunarPhaseType::FullMoon),
            4 => Some(LunarPhaseType::LastQuarter),
            _ => None,
        }
    }
}

/// A predicted high or low water. Events are told apart, and ordered, by
/// their instant alone.
#[derive(Debug, Clone)]
pub struct TidalEvent {
    /// When the tide turns, in the target zone.
    pub date_time: ZonedDateTime,
    /// High or low water.
    pub event_type: TidalEventType,
    /// Predicted height.
    pub height: Metres,
    /// Absent in the documents seen so far.
    pub is_approximate_height: Option<String>,
    /// Absent in the documents seen so far.
    pub is_approximate_time: Option<String>,
}

impl TidalEvent {
    /// The calendar date of the event in the target zone.
    pub fn date(&self) -> (r: Date)
        ensures
            r == self.date_time.local.date,
    {
        self.date_time.date()
    }
}

impl PartialEq for TidalEvent {
    fn eq(&self, other: &TidalEvent) -> (r: bool) {
        self.date_time.instant.second == other.date_time.instant.second
            && self.date_time.instant.nanosecond == other.date_time.instant.nanosecond
    }
}

impl vstd::std_specs::cmp::PartialEqSpecImpl for TidalEvent {
    open spec fn obeys_eq_spec() -> bool {
        true
    }

    open spec fn eq_spec(&self, other: &TidalEvent) -> bool {
        self.date_time.instant == other.date_time.instant
    }
}

impl Eq for TidalEvent {}

impl PartialOrd for TidalEvent {
    fn partial_cmp(&self, other: &TidalEvent) -> (r: Option<std::cmp::Ordering>) {
        let a = self.date_time.instant;
        let b = other.date_time.instant;
        if a.second < b.second || (a.second == b.second && a.nanosecond < b.nanosecond) {
            Some(std::cmp::Ordering::Less)
        } else if a.second == b.second && a.nanosecond == b.nanosecond {
            Some(std::cmp::Ordering::Equal)
        } else {
            Some(std::cmp::Ordering::Greater)
        }
    }
}

impl vstd::std_specs::cmp::PartialOrdSpecImpl for TidalEvent {
    open spec fn obeys_partial_cmp_spec() -> bool {
        true
    }

    open spec fn partial_cmp_spec(&self, other: &TidalEvent) -> Option<std::cmp::Ordering> {
        let a = self.date_time.instant;
        let b = other.date_time.instant;
        if instant_lt(a, b) {
            Some(std::cmp::Ordering::Less)
        } else if a == b {
            Some(std::cmp::Ordering::Equal)
        } else {
            Some(std::cmp::Ordering::Greater)
        }
    }
}

/// Two tidal events are equal, and compare equal, exactly when their
/// instants are, whatever their types, heights or flags.
pub proof fn lemma_tidal_event_identity(a: TidalEvent, b: TidalEvent)
    ensures
        a.eq_spec(&b) <==> a.date_time.instant == b.date_time.instant,
        a.partial_cmp_spec(&b) == Some(std::cmp::Ordering::Equal) <==> a.date_time.instant == b.date_time.instant,
{
}

/// A half-hourly height prediction.
#[derive(Debug, Clone, Copy, PartialEq, Eq, Structural)]
pub struct TidalHeightOccurence {
    /// When, in the target zone.
    pub date_time: ZonedDateTime,
    /// Predicted height.
    pub height: Metres,
}

/// A predicted phase of the moon.
#[derive(Debug, Clone, Copy, PartialEq, Eq, Structural)]
pub struct LunarPhase {
    /// When, in the target zone.
    pub date_time: ZonedDateTime,
    /// The phase.
    pub lunar_phase_type: LunarPhaseType,
}

/// Tide predictions for one station.
#[derive(Debug)]
pub struct TidePredictions {
    /// A note on the whole response, typically about safety.
    pub footer_note: String,
    /// Phases of the moon.
    pub lunar_phase_list: Vec<LunarPhase>,
    /// High and low waters. They mostly alternate, but some places have
    /// double high waters.
    pub tidal_event_list: Vec<TidalEvent>,
    /// Half-hourly heights; empty where the station gives none.
    pub tidal_height_occurrence_list: Vec<TidalHeightOccurence>,
}

} // verus!
