//! marketschema: a unified schema for financial market data.
//!
//! The library holds the schema's validated field types (symbols, ISO 4217
//! currency codes, ISO 10383 market identifier codes, calendar dates,
//! expiry series, timestamps and enumerations), the `Instrument` and
//! `ExpiryInfo` records, and their builders.

pub mod types;

pub use types::expiry_info::ExpiryInfo;
pub use types::instrument::Instrument;
