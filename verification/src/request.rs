//! What a request may ask for: the blocks to leave out, the language of the
//! summaries and the units, each with the token that stands for it in the
//! query of a request, and the address that carries the request.

pub mod address;
pub mod block;
pub mod language;
pub mod options;
pub mod unit;

pub use address::{forecast_address, forecast_uri, forecast_uri_with_options};
pub use block::Block;
pub use language::Language;
pub use options::{block_list, parameter, query, Options};
pub use unit::Unit;
