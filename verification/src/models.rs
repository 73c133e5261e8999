//! The forecast and its parts, each with the decoder that reads it from a
//! JSON value.
//!
//! Every decoder is a function from a [`ValueTree`](crate::value::ValueTree)
//! to a `Result`, and its contract gives the result as a function of the
//! value's view: the spec function `decoded` of the same type. An entity is
//! decoded only where every one of its fields is. There is no forecast that
//! is valid in part.

pub mod alert;
pub mod datablock;
pub mod datapoint;
pub mod flags;
pub mod forecast;
pub mod icon;
pub mod precipitation;

pub use alert::{Alert, AlertView};
pub use datablock::{Datablock, DatablockView};
pub use datapoint::{Datapoint, DatapointView};
pub use flags::{Flags, FlagsView};
pub use forecast::{Forecast, ForecastView};
pub use icon::Icon;
pub use precipitation::PrecipitationType;
