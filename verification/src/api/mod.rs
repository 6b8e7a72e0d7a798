//! The HTTP API layer: replies, errors, request parameters and results.
pub mod device_type;
pub mod errors;
pub mod output;
pub mod params;
pub mod power;
pub mod query;
pub mod results;
pub mod state;
