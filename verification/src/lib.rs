//! Verified core of the SERAPH client: error values, the engine's reply
//! conventions, store configuration, and the conversions between the engine's
//! flat replies and the typed values handed to callers.

pub mod config;
pub mod decimal;
pub mod error;
pub mod federation;
pub mod json;
pub mod records;
pub mod reply;
pub mod rows;

pub use config::StoreConfig;
pub use error::Error;
pub use records::{RegionDirection, RoutingMode, Stats};
pub use reply::{Fill, Lookup};
