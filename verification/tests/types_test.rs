//! Checks on `Instrument`, `ExpiryInfo` and the validated field types,
//! through the library's conversions and builders.

use marketschema::types::derivative_info::{
    DerivativeInfoSettlementCurrency, DerivativeInfoSettlementMethod, DerivativeInfoUnderlyingSymbol,
    DerivativeInfoUnderlyingType,
};
use marketschema::types::expiry_info::{self, ExpiryInfoExpiry, ExpiryInfoLastTradingDay, ExpiryInfoSettlementDate};
use marketschema::types::instrument::{self, InstrumentAssetClass, InstrumentCurrency, InstrumentExchange};
use marketschema::types::ohlcv::OhlcvSymbol;
use marketschema::types::option_info::{OptionInfoExerciseStyle, OptionInfoOptionType};
use marketschema::types::orderbook::OrderBookSymbol;
use marketschema::types::quote::QuoteSymbol;
use marketschema::types::trade::{TradeSide, TradeSymbol};
use marketschema::types::volume_info::VolumeInfoSymbol;
use marketschema::types::Timestamp;
use marketschema::{ExpiryInfo, Instrument};

#[test]
fn test_instrument_deserialization() {
    let b = Instrument::builder()
        .symbol("7203.T")
        .asset_class("equity")
        .currency(InstrumentCurrency::from_str("JPY").unwrap())
        .exchange(InstrumentExchange::from_str("XJPX").unwrap());
    let instrument = Instrument::try_from(b).expect("Failed to build Instrument");
    assert_eq!(instrument.symbol.as_str(), "7203.T");
    assert_eq!(instrument.asset_class, InstrumentAssetClass::Equity);
    assert_eq!(instrument.currency.as_ref().map(|c| c.as_str()), Some("JPY"));
    assert_eq!(instrument.exchange.as_ref().map(|e| e.as_str()), Some("XJPX"));
    assert!(instrument.base_currency.is_none());
    assert!(instrument.quote_currency.is_none());
}

#[test]
fn test_expiry_info_deserialization() {
    let b = ExpiryInfo::builder()
        .expiration_date("2026-03-20")
        .expiry(ExpiryInfoExpiry::from_str("2026-03").unwrap())
        .last_trading_day(ExpiryInfoLastTradingDay::from_str("2026-03-19").unwrap())
        .settlement_date(ExpiryInfoSettlementDate::from_str("2026-03-20").unwrap());
    let expiry_info = ExpiryInfo::try_from(b).expect("Failed to deserialize ExpiryInfo");
    assert_eq!(expiry_info.expiration_date.as_str(), "2026-03-20");
    assert_eq!(expiry_info.expiry.as_ref().map(|e| e.as_str()), Some("2026-03"));
    assert_eq!(
        expiry_info.last_trading_day.as_ref().map(|d| d.as_str()),
        Some("2026-03-19")
    );
    assert_eq!(
        expiry_info.settlement_date.as_ref().map(|d| d.as_str()),
        Some("2026-03-20")
    );
}

#[test]
fn test_expiry_info_without_optional_fields() {
    let b = ExpiryInfo::builder().expiration_date("2026-06-18");
    let expiry_info = ExpiryInfo::try_from(b).expect("Failed to deserialize ExpiryInfo");
    assert_eq!(expiry_info.expiration_date.as_str(), "2026-06-18");
    assert!(expiry_info.expiry.is_none());
    assert!(expiry_info.last_trading_day.is_none());
    assert!(expiry_info.settlement_date.is_none());
}

#[test]
fn test_expiry_info_rejects_missing_required_fields() {
    // expiration_date missing
    let b = ExpiryInfo::builder().expiry(ExpiryInfoExpiry::from_str("2026-03").unwrap());
    let result = ExpiryInfo::try_from(b);
    assert!(result.is_err());
    assert_eq!(result.unwrap_err().as_str(), "no value supplied for expiration_date");
}

#[test]
fn test_expiry_info_rejects_invalid_date_format() {
    // Slash format instead of dash
    let result = ExpiryInfo::try_from(ExpiryInfo::builder().expiration_date("2026/03/20"));
    assert!(result.is_err());

    // No separators
    let result = ExpiryInfo::try_from(ExpiryInfo::builder().expiration_date("20260320"));
    assert!(result.is_err());

    // Wrong number of digits
    let result = ExpiryInfo::try_from(ExpiryInfo::builder().expiration_date("26-03-20"));
    assert!(result.is_err());
}

#[test]
fn test_expiry_info_serialization_roundtrip() {
    let b = ExpiryInfo::builder()
        .expiration_date("2026-03-20")
        .expiry(ExpiryInfoExpiry::from_str("2026-03").unwrap())
        .last_trading_day(ExpiryInfoLastTradingDay::from_str("2026-03-19").unwrap());
    let expiry_info = ExpiryInfo::try_from(b).expect("Failed to deserialize");
    let roundtrip = ExpiryInfo::try_from(expiry_info::builder::ExpiryInfo::from(expiry_info.clone()))
        .expect("Failed to deserialize roundtrip");
    assert_eq!(expiry_info.expiration_date, roundtrip.expiration_date);
    assert_eq!(expiry_info.expiry, roundtrip.expiry);
    assert_eq!(expiry_info.last_trading_day, roundtrip.last_trading_day);
    assert_eq!(expiry_info.settlement_date, roundtrip.settlement_date);
}

#[test]
fn test_instrument_serialization_roundtrip() {
    let b = Instrument::builder()
        .asset_class("equity")
        .currency(InstrumentCurrency::from_str("JPY").unwrap())
        .exchange(InstrumentExchange::from_str("XJPX").unwrap())
        .symbol("7203.T");
    let instrument = Instrument::try_from(b).expect("Failed to deserialize");
    let roundtrip = Instrument::try_from(instrument::builder::Instrument::from(instrument.clone()))
        .expect("Failed to deserialize roundtrip");
    assert_eq!(instrument.symbol.as_str(), roundtrip.symbol.as_str());
    assert_eq!(
        instrument.asset_class.to_string(),
        roundtrip.asset_class.to_string()
    );
    assert_eq!(instrument.currency, roundtrip.currency);
    assert_eq!(instrument.exchange, roundtrip.exchange);
}

#[test]
fn test_instrument_rejects_invalid_currency_pattern() {
    // invalid currency pattern (lowercase)
    assert!(InstrumentCurrency::from_str("jpy").is_err());
    // invalid currency pattern (wrong length)
    assert!(InstrumentCurrency::from_str("JP").is_err());
    // invalid exchange pattern (3 characters instead of 4)
    assert!(InstrumentExchange::from_str("XJP").is_err());
}

#[test]
fn test_instrument_rejects_empty_symbol() {
    let result = Instrument::try_from(Instrument::builder().symbol("").asset_class("equity"));
    assert!(result.is_err());
}

#[test]
fn test_instrument_rejects_invalid_asset_class() {
    let result = Instrument::try_from(Instrument::builder().symbol("TEST").asset_class("invalid"));
    assert!(result.is_err());
}

#[test]
fn test_instrument_rejects_missing_required_fields() {
    // missing symbol
    let result = Instrument::try_from(Instrument::builder().asset_class("equity"));
    assert!(result.is_err());

    // missing asset_class
    let result = Instrument::try_from(Instrument::builder().symbol("7203.T"));
    assert!(result.is_err());
}

#[test]
fn test_derivative_info_rejects_invalid_currency_code() {
    // Lowercase
    assert!(DerivativeInfoSettlementCurrency::from_str("jpy").is_err());
    // Wrong length (2 characters)
    assert!(DerivativeInfoSettlementCurrency::from_str("JP").is_err());
    // Wrong length (4 characters)
    assert!(DerivativeInfoSettlementCurrency::from_str("JPYY").is_err());
}

#[test]
fn test_derivative_info_rejects_empty_underlying_symbol() {
    assert!(DerivativeInfoUnderlyingSymbol::from_str("").is_err());
}

#[test]
fn test_derivative_info_rejects_invalid_underlying_type() {
    assert!(DerivativeInfoUnderlyingType::from_str("invalid_type").is_err());
}

#[test]
fn test_derivative_info_rejects_invalid_settlement_method() {
    assert!(DerivativeInfoSettlementMethod::from_str("invalid").is_err());
}

#[test]
fn test_option_info_rejects_invalid_option_type() {
    assert!(OptionInfoOptionType::from_str("invalid").is_err());
}

#[test]
fn test_option_info_rejects_invalid_exercise_style() {
    assert!(OptionInfoExerciseStyle::from_str("invalid").is_err());
}

#[test]
fn test_trade_rejects_invalid_side_value() {
    assert!(TradeSide::from_str("invalid").is_err());
}

#[test]
fn test_volume_info_rejects_empty_symbol() {
    assert!(VolumeInfoSymbol::from_str("").is_err());
}

#[test]
fn test_quote_rejects_empty_symbol() {
    assert!(QuoteSymbol::from_str("").is_err());
}

#[test]
fn test_trade_rejects_empty_symbol() {
    assert!(TradeSymbol::from_str("").is_err());
}

#[test]
fn test_ohlcv_rejects_empty_symbol() {
    assert!(OhlcvSymbol::from_str("").is_err());
}

#[test]
fn test_orderbook_rejects_empty_symbol() {
    assert!(OrderBookSymbol::from_str("").is_err());
}

#[test]
fn test_quote_rejects_invalid_timestamp_format() {
    // Unix timestamp instead of ISO 8601
    assert!(Timestamp::from_str("1706857200").is_err());
    // Invalid date format
    assert!(Timestamp::from_str("2026/02/02 09:00:00").is_err());
}
