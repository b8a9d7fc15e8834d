use marketschema::types::definitions::CommonTypeDefinitions;
use marketschema::types::error::ConversionError;
use marketschema::types::expiry_info::builder as expiry_builder;
use marketschema::types::expiry_info::{ExpiryInfoExpirationDate, ExpiryInfoExpiry, ExpiryInfoLastTradingDay};
use marketschema::types::instrument::builder as instrument_builder;
use marketschema::types::instrument::{
    InstrumentAssetClass, InstrumentBaseCurrency, InstrumentQuoteCurrency, InstrumentSymbol,
};
use marketschema::types::Timestamp;
use marketschema::{ExpiryInfo, Instrument};

#[test]
fn fresh_instrument_builder_reports_missing_asset_class() {
    let e = Instrument::try_from(Instrument::builder()).unwrap_err();
    assert_eq!(e.as_str(), "no value supplied for asset_class");
}

#[test]
fn instrument_builder_reports_missing_symbol_after_asset_class() {
    let e = Instrument::try_from(Instrument::builder().asset_class(InstrumentAssetClass::Fx)).unwrap_err();
    assert_eq!(e.as_str(), "no value supplied for symbol");
}

#[test]
fn instrument_builder_reports_conversion_failures() {
    let e = Instrument::try_from(Instrument::builder().asset_class("stocks").symbol("X")).unwrap_err();
    assert_eq!(e.as_str(), "error converting supplied value for asset_class: invalid value");
    let e = Instrument::try_from(Instrument::builder().asset_class("fx").symbol("")).unwrap_err();
    assert_eq!(e.as_str(), "error converting supplied value for symbol: shorter than 1 characters");
}

#[test]
fn instrument_builder_first_failing_field_decides() {
    // both fields fail: asset_class comes first in declaration order
    let e = Instrument::try_from(Instrument::builder().symbol("").asset_class("nope")).unwrap_err();
    assert_eq!(e.as_str(), "error converting supplied value for asset_class: invalid value");
}

#[test]
fn instrument_builder_later_setter_overrides() {
    let b = Instrument::builder().asset_class("nope").asset_class("crypto").symbol(String::from("BTC/JPY"));
    let i = Instrument::try_from(b).unwrap();
    assert_eq!(i.asset_class, InstrumentAssetClass::Crypto);
    assert_eq!(i.symbol.as_str(), "BTC/JPY");
}

#[test]
fn instrument_currency_pair() {
    let b = Instrument::builder()
        .asset_class(&String::from("fx"))
        .symbol(InstrumentSymbol::from_str("USDJPY").unwrap())
        .base_currency(InstrumentBaseCurrency::from_str("USD").unwrap())
        .quote_currency(Some(InstrumentQuoteCurrency::from_str("JPY").unwrap()))
        .currency(None);
    let i = Instrument::try_from(b).unwrap();
    assert_eq!(i.base_currency.as_ref().unwrap().as_str(), "USD");
    assert_eq!(i.quote_currency.as_ref().unwrap().as_str(), "JPY");
    assert!(i.currency.is_none());
    assert!(i.exchange.is_none());
}

#[test]
fn instrument_from_then_try_from_gives_back_the_record() {
    let i = Instrument::try_from(Instrument::builder().asset_class("bond").symbol("JGB10")).unwrap();
    let back = Instrument::try_from(instrument_builder::Instrument::from(i.clone())).unwrap();
    assert_eq!(back.asset_class, i.asset_class);
    assert_eq!(back.symbol, i.symbol);
    assert_eq!(back.base_currency, i.base_currency);
}

#[test]
fn default_builders_equal_fresh_builders() {
    let e = ExpiryInfo::try_from(expiry_builder::ExpiryInfo::default()).unwrap_err();
    assert_eq!(e.as_str(), "no value supplied for expiration_date");
    let e = Instrument::try_from(instrument_builder::Instrument::default()).unwrap_err();
    assert_eq!(e.as_str(), "no value supplied for asset_class");
}

#[test]
fn expiry_info_builder_reports_conversion_failure() {
    let e = ExpiryInfo::try_from(ExpiryInfo::builder().expiration_date("2026-3-20")).unwrap_err();
    assert_eq!(
        e.as_str(),
        "error converting supplied value for expiration_date: doesn't match pattern \"^\\d{4}-\\d{2}-\\d{2}$\""
    );
}

#[test]
fn expiry_info_builder_accepts_typed_and_owned_inputs() {
    let b = ExpiryInfo::builder()
        .expiration_date(ExpiryInfoExpirationDate::from_str("2026-12-11").unwrap())
        .expiry(Some(ExpiryInfoExpiry::from_str("2026-W50").unwrap()))
        .last_trading_day(None::<ExpiryInfoLastTradingDay>);
    let info = ExpiryInfo::try_from(b).unwrap();
    assert_eq!(info.expiration_date.as_str(), "2026-12-11");
    assert_eq!(info.expiry.unwrap().as_str(), "2026-W50");
    assert!(info.last_trading_day.is_none());
    let info = ExpiryInfo::try_from(ExpiryInfo::builder().expiration_date(String::from("2027-01-15"))).unwrap();
    assert_eq!(info.expiration_date.into_string(), "2027-01-15".to_string());
}

#[test]
fn timestamp_reads_rfc3339() {
    let t = Timestamp::from_str("2026-02-02T09:00:00Z").unwrap();
    assert_eq!(t.timestamp(), 1770022800);
    assert_eq!(t.timestamp_subsec_nanos(), 0);
    let t = Timestamp::from_str("2026-02-02T14:30:00.123Z").unwrap();
    assert_eq!(t.timestamp(), 1770042600);
    assert_eq!(t.timestamp_subsec_nanos(), 123_000_000);
    let t = Timestamp::from_str("2026-02-02T18:00:00+09:00").unwrap();
    assert_eq!(t.timestamp(), 1770022800);
}

#[test]
fn timestamp_writes_chrono_display() {
    let t = Timestamp::from_str("2024-01-01T00:00:00Z").unwrap();
    assert_eq!(t.to_string(), "2024-01-01 00:00:00 UTC");
    let t = Timestamp::from_timestamp(1704067200, 500_000_000).unwrap();
    assert_eq!(t.to_string(), "2024-01-01 00:00:00.500 UTC");
}

#[test]
fn timestamp_from_its_parts_is_itself() {
    let t = Timestamp::from_str("2026-02-02T14:30:00.123Z").unwrap();
    let u = Timestamp::from_timestamp(t.timestamp(), t.timestamp_subsec_nanos()).unwrap();
    assert_eq!(t, u);
    assert_eq!("2026-02-02T14:30:00.123Z".parse::<Timestamp>().unwrap(), t);
}

#[test]
fn timestamp_refuses_unrepresentable_instants() {
    assert!(Timestamp::from_timestamp(0, 2_000_000_000).is_none());
    assert!(Timestamp::from_timestamp(1, 1_000_000_000).is_none());
    assert!(Timestamp::from_timestamp(59, 1_000_000_000).is_some());
    assert!(Timestamp::from_timestamp(i64::MAX, 0).is_none());
}

#[test]
fn timestamp_reports_chrono_message() {
    let e = Timestamp::from_str("not a time").unwrap_err();
    assert!(!e.as_str().is_empty());
}

#[test]
fn common_type_definitions_hold_a_json_value() {
    let v: serde_json::Value = serde_json::from_str(r#"{"a": [1, 2]}"#).unwrap();
    let c = CommonTypeDefinitions::from(v.clone());
    assert_eq!(c.as_value(), &v);
    assert_eq!(c.clone().into_value(), v);
}

#[test]
fn conversion_error_prints_its_message() {
    let e: ConversionError = Instrument::try_from(Instrument::builder()).unwrap_err();
    assert_eq!(format!("{}", e), "no value supplied for asset_class");
    assert_eq!(format!("{:?}", e), "\"no value supplied for asset_class\"");
}

#[test]
fn builders_clone_their_state() {
    let b = Instrument::builder().asset_class("fx").symbol("");
    let c = b.clone();
    assert_eq!(
        Instrument::try_from(c).unwrap_err(),
        "error converting supplied value for symbol: shorter than 1 characters"
    );
    assert!(Instrument::try_from(b.symbol("USDJPY")).is_ok());
    let e = ExpiryInfo::builder().expiration_date("2026-03-20");
    assert_eq!(ExpiryInfo::try_from(e.clone()).unwrap().expiration_date.as_str(), "2026-03-20");
    assert!(ExpiryInfo::try_from(e).is_ok());
}

#[test]
fn setters_take_references_to_field_values() {
    let symbol = InstrumentSymbol::from_str("7203.T").unwrap();
    let class = InstrumentAssetClass::Equity;
    let i = Instrument::try_from(Instrument::builder().symbol(&symbol).asset_class(&class)).unwrap();
    assert_eq!(i.symbol, symbol);
    let date = ExpiryInfoExpirationDate::from_str("2026-03-20").unwrap();
    let e = ExpiryInfo::try_from(ExpiryInfo::builder().expiration_date(&date)).unwrap();
    assert_eq!(e.expiration_date, date);
}

#[test]
fn field_types_convert_through_try_from() {
    assert_eq!(InstrumentSymbol::try_from("AAPL").unwrap().as_str(), "AAPL");
    assert_eq!(InstrumentSymbol::try_from(String::from("")).unwrap_err(), "shorter than 1 characters");
    let text = String::from("equity");
    assert_eq!(InstrumentAssetClass::try_from(&text).unwrap(), InstrumentAssetClass::Equity);
    let c: Result<InstrumentBaseCurrency, _> = "usd".try_into();
    assert_eq!(c.unwrap_err(), "doesn't match pattern \"^[A-Z]{3}$\"");
}
