//! Addresses of the two EasyTide endpoints.
use vstd::prelude::*;

use crate::types::StationId;

verus! {

/// Endpoint that lists all stations.
pub open spec fn stations_endpoint() -> Seq<char> {
    "https://easytide.admiralty.co.uk/Home/GetStations"@
}

/// Endpoint that gives one station's predictions, named by the `stationID`
/// query parameter.
pub open spec fn predictions_endpoint() -> Seq<char> {
    "https://easytide.admiralty.co.uk/Home/GetPredictionData"@
}

/// A character that form encoding writes as it is.
pub open spec fn form_unreserved(c: char) -> bool {
    c == '*' || c == '-' || c == '.' || c == '_' || ('0' <= c && c <= '9') || ('A' <= c && c <= 'Z')
        || ('a' <= c && c <= 'z')
}

/// The `application/x-www-form-urlencoded` form of `text`.
pub uninterp spec fn form_encoded_of(text: Seq<char>) -> Seq<char>;

/// Relies on `url::form_urlencoded::byte_serialize` over the
/// UTF-8 bytes of `text`: ASCII letters, digits and `*-._` stay as they are.
#[verifier::external_body]
fn form_encode(text: &str) -> (r: String)
    ensures
        r@ == form_encoded_of(text@),
        (forall|i: int| 0 <= i < text@.len() ==> form_unreserved(#[trigger] text@[i])) ==> r@ == text@,
{
    url::form_urlencoded::byte_serialize(text.as_bytes()).collect()
}

/// The address that lists all stations.
pub fn stations_list_url() -> (r: String)
    ensures
        r@ == stations_endpoint(),
{
    "https://easytide.admiralty.co.uk/Home/GetStations".to_owned()
}

/// The address of the predictions for `station`; its identifier is passed
/// as written (leading zeros kept), form-encoded.
pub fn tide_predictions_url(station: &StationId) -> (r: String)
    ensures
        r@ == predictions_endpoint() + "?stationID="@ + form_encoded_of(station.0@),
        (forall|i: int| 0 <= i < station.0@.len() ==> form_unreserved(#[trigger] station.0@[i]))
            ==> r@ == predictions_endpoint() + "?stationID="@ + station.0@,
{
    let mut r = "https://easytide.admiralty.co.uk/Home/GetPredictionData".to_owned();
    r.append("?stationID=");
    let encoded = form_encode(station.0.as_str());
    r.append(encoded.as_str());
    r
}

} // verus!
