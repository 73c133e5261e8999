//! The address of a request.

use crate::request::options::{query, Options};
use vstd::prelude::*;
use vstd::string::*;

verus! {

/// The address of the forecast for a place, up to the query: `token` is the
/// key of the API's user, and the coordinates are written as decimal numbers.
pub open spec fn forecast_address(token: Seq<char>, latitude: Seq<char>, longitude: Seq<char>)
    -> Seq<char> {
    "https://api.darksky.net"@ + "/forecast/"@ + token + "/"@ + latitude + ","@ + longitude
}

/// The address to ask for the forecast of a place where nothing is asked
/// beyond it: the API is left to choose the units.
pub fn forecast_uri(token: &str, latitude: &str, longitude: &str) -> (r: String)
    ensures
        r@ == forecast_address(token@, latitude@, longitude@) + "?units=auto"@,
{
    let mut uri = address(token, latitude, longitude);
    uri.append("?units=auto");
    uri
}

/// The address to ask for the forecast of a place with the options
/// `options`.
pub fn forecast_uri_with_options(token: &str, latitude: &str, longitude: &str, options: &Options)
    -> (r: String)
    ensures
        r@ == forecast_address(token@, latitude@, longitude@) + "?"@ + query(options@),
{
    let mut uri = address(token, latitude, longitude);
    uri.append("?");
    let q = options.query();
    uri.append(q.as_str());
    uri
}

/// The address of the forecast for a place, up to the query.
fn address(token: &str, latitude: &str, longitude: &str) -> (r: String)
    ensures
        r@ == forecast_address(token@, latitude@, longitude@),
{
    let mut uri = "https://api.darksky.net".to_owned();
    uri.append("/forecast/");
    uri.append(token);
    uri.append("/");
    uri.append(latitude);
    uri.append(",");
    uri.append(longitude);
    uri
}

} // verus!
