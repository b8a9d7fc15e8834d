//! Types of the market data schema.

pub mod definitions;
pub mod derivative_info;
pub mod error;
pub mod expiry_info;
pub mod field_input;
pub mod instrument;
pub mod ohlcv;
pub mod option_info;
pub mod orderbook;
pub mod quote;
pub mod text;
pub mod trade;
pub mod volume_info;

pub use definitions::{
    AssetClass, CommonTypeDefinitions, Currency, Date, Exchange, ExerciseStyle, ExpirySeries,
    OptionType, SettlementMethod, Side, Symbol, Timestamp, UnderlyingType,
};
pub use instrument::Instrument;
