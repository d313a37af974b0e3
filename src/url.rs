//! The transit API's endpoints.
use vstd::prelude::*;
use vstd::string::StringExecFns;

use crate::types::{station_code, Station};

verus! {

/// Sent as the client's user agent.
pub const USER_AGENT: &'static str = "esp-wmata-pids";

/// Base address of the transit API.
pub const API: &'static str = "http://api.wmata.com";

/// Path of the arrival predictions, relative to [`API`], before the station
/// code.
pub const NEXT_TRAINS_PATH: &'static str = "/StationPrediction.svc/json/GetPrediction/";

/// The address of the arrival predictions for `station`.
pub fn build_next_trains_url(station: Station) -> (r: String)
    ensures
        r@ == API@ + NEXT_TRAINS_PATH@ + station_code(station),
{
    let mut url = String::from_str(API);
    url.append(NEXT_TRAINS_PATH);
    url.append(station.code());
    url
}

} // verus!
