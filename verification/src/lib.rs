//! The core of a typed client for the Dark Sky weather API.
//!
//! The library turns the JSON document that the API answers with into a
//! [`Forecast`], or into a [`DecodeError`] that says which field of the
//! document did not fit and what was found there. It also builds the address
//! of a request from a place and a set of [`Options`]. Sending the request is
//! left to the caller.

pub mod error;
pub mod extract;
pub mod json;
pub mod models;
pub mod request;
pub mod value;

pub use error::{DecodeError, Failure};
pub use extract::{
    decode_array, into_number, into_string, into_strings, into_u64, take_optional, take_required,
};
pub use json::parse;
pub use models::{Alert, Datablock, Datapoint, Flags, Forecast, Icon, PrecipitationType};
pub use request::{forecast_uri, forecast_uri_with_options, Block, Language, Options, Unit};
pub use value::{Json, Number, Object, ValueTree};
