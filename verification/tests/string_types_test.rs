
use marketschema::types::definitions::Currency;
use marketschema::types::definitions::Date;
use marketschema::types::definitions::Exchange;
use marketschema::types::definitions::ExpirySeries;
use marketschema::types::definitions::Symbol;
use marketschema::types::derivative_info::DerivativeInfoContractValueCurrency;
use marketschema::types::derivative_info::DerivativeInfoSettlementCurrency;
use marketschema::types::derivative_info::DerivativeInfoUnderlyingSymbol;
use marketschema::types::expiry_info::ExpiryInfoExpirationDate;
use marketschema::types::expiry_info::ExpiryInfoExpiry;
use marketschema::types::expiry_info::ExpiryInfoLastTradingDay;
use marketschema::types::expiry_info::ExpiryInfoSettlementDate;
use marketschema::types::instrument::InstrumentBaseCurrency;
use marketschema::types::instrument::InstrumentCurrency;
use marketschema::types::instrument::InstrumentExchange;
use marketschema::types::instrument::InstrumentQuoteCurrency;
use marketschema::types::instrument::InstrumentSymbol;
use marketschema::types::ohlcv::OhlcvSymbol;
use marketschema::types::orderbook::OrderBookSymbol;
use marketschema::types::quote::QuoteSymbol;
use marketschema::types::trade::TradeSymbol;
use marketschema::types::volume_info::VolumeInfoSymbol;

#[test]
fn currency_accepts_valid_text() {
    for text in ["USD", "JPY", "EUR"] {
        let v = Currency::from_str(text).unwrap();
        assert_eq!(v.as_str(), text);
        assert_eq!(v.clone().into_string(), text.to_string());
        assert_eq!(text.parse::<Currency>().unwrap(), v);
    }
}

#[test]
fn currency_refuses_invalid_text() {
    for text in ["jpy", "JP", "JPYY", "", "J1Y", " JPY"] {
        let e = Currency::from_str(text).unwrap_err();
        assert_eq!(e.as_str(), "doesn\'t match pattern \"^[A-Z]{3}$\"");
    }
}

#[test]
fn date_accepts_valid_text() {
    for text in ["2026-03-20", "0000-99-99"] {
        let v = Date::from_str(text).unwrap();
        assert_eq!(v.as_str(), text);
        assert_eq!(v.clone().into_string(), text.to_string());
        assert_eq!(text.parse::<Date>().unwrap(), v);
    }
}

#[test]
fn date_refuses_invalid_text() {
    for text in ["2026/03/20", "20260320", "26-03-20", "2026-3-20", "2026-03-20T00", "２026-03-20"] {
        let e = Date::from_str(text).unwrap_err();
        assert_eq!(e.as_str(), "doesn\'t match pattern \"^\\d{4}-\\d{2}-\\d{2}$\"");
    }
}

#[test]
fn exchange_accepts_valid_text() {
    for text in ["XJPX", "XNYS"] {
        let v = Exchange::from_str(text).unwrap();
        assert_eq!(v.as_str(), text);
        assert_eq!(v.clone().into_string(), text.to_string());
        assert_eq!(text.parse::<Exchange>().unwrap(), v);
    }
}

#[test]
fn exchange_refuses_invalid_text() {
    for text in ["XJP", "xjpx", "XJPXX", "X1PX"] {
        let e = Exchange::from_str(text).unwrap_err();
        assert_eq!(e.as_str(), "doesn\'t match pattern \"^[A-Z]{4}$\"");
    }
}

#[test]
fn expiry_series_accepts_valid_text() {
    for text in ["2026-03", "2026-W12", "2026-03-20"] {
        let v = ExpirySeries::from_str(text).unwrap();
        assert_eq!(v.as_str(), text);
        assert_eq!(v.clone().into_string(), text.to_string());
        assert_eq!(text.parse::<ExpirySeries>().unwrap(), v);
    }
}

#[test]
fn expiry_series_refuses_invalid_text() {
    for text in ["2026", "2026-3", "2026-W1", "2026-w12", "2026-03-2", "2026/03", "202603"] {
        let e = ExpirySeries::from_str(text).unwrap_err();
        assert_eq!(e.as_str(), "doesn\'t match pattern \"^\\d{4}(-\\d{2}|-W\\d{2}|-\\d{2}-\\d{2})$\"");
    }
}

#[test]
fn symbol_accepts_valid_text() {
    for text in ["7203.T", "A", "BTC-USD", "トヨタ"] {
        let v = Symbol::from_str(text).unwrap();
        assert_eq!(v.as_str(), text);
        assert_eq!(v.clone().into_string(), text.to_string());
        assert_eq!(text.parse::<Symbol>().unwrap(), v);
    }
}

#[test]
fn symbol_refuses_invalid_text() {
    for text in [""] {
        let e = Symbol::from_str(text).unwrap_err();
        assert_eq!(e.as_str(), "shorter than 1 characters");
    }
}

#[test]
fn derivative_info_contract_value_currency_accepts_valid_text() {
    for text in ["USD", "JPY", "EUR"] {
        let v = DerivativeInfoContractValueCurrency::from_str(text).unwrap();
        assert_eq!(v.as_str(), text);
        assert_eq!(v.clone().into_string(), text.to_string());
        assert_eq!(text.parse::<DerivativeInfoContractValueCurrency>().unwrap(), v);
    }
}

#[test]
fn derivative_info_contract_value_currency_refuses_invalid_text() {
    for text in ["jpy", "JP", "JPYY", "", "J1Y", " JPY"] {
        let e = DerivativeInfoContractValueCurrency::from_str(text).unwrap_err();
        assert_eq!(e.as_str(), "doesn\'t match pattern \"^[A-Z]{3}$\"");
    }
}

#[test]
fn derivative_info_settlement_currency_accepts_valid_text() {
    for text in ["USD", "JPY", "EUR"] {
        let v = DerivativeInfoSettlementCurrency::from_str(text).unwrap();
        assert_eq!(v.as_str(), text);
        assert_eq!(v.clone().into_string(), text.to_string());
        assert_eq!(text.parse::<DerivativeInfoSettlementCurrency>().unwrap(), v);
    }
}

#[test]
fn derivative_info_settlement_currency_refuses_invalid_text() {
    for text in ["jpy", "JP", "JPYY", "", "J1Y", " JPY"] {
        let e = DerivativeInfoSettlementCurrency::from_str(text).unwrap_err();
        assert_eq!(e.as_str(), "doesn\'t match pattern \"^[A-Z]{3}$\"");
    }
}

#[test]
fn derivative_info_underlying_symbol_accepts_valid_text() {
    for text in ["7203.T", "A", "BTC-USD", "トヨタ"] {
        let v = DerivativeInfoUnderlyingSymbol::from_str(text).unwrap();
        assert_eq!(v.as_str(), text);
        assert_eq!(v.clone().into_string(), text.to_string());
        assert_eq!(text.parse::<DerivativeInfoUnderlyingSymbol>().unwrap(), v);
    }
}

#[test]
fn derivative_info_underlying_symbol_refuses_invalid_text() {
    for text in [""] {
        let e = DerivativeInfoUnderlyingSymbol::from_str(text).unwrap_err();
        assert_eq!(e.as_str(), "shorter than 1 characters");
    }
}

#[test]
fn expiry_info_expiration_date_accepts_valid_text() {
    for text in ["2026-03-20", "0000-99-99"] {
        let v = ExpiryInfoExpirationDate::from_str(text).unwrap();
        assert_eq!(v.as_str(), text);
        assert_eq!(v.clone().into_string(), text.to_string());
        assert_eq!(text.parse::<ExpiryInfoExpirationDate>().unwrap(), v);
    }
}

#[test]
fn expiry_info_expiration_date_refuses_invalid_text() {
    for text in ["2026/03/20", "20260320", "26-03-20", "2026-3-20", "2026-03-20T00", "２026-03-20"] {
        let e = ExpiryInfoExpirationDate::from_str(text).unwrap_err();
        assert_eq!(e.as_str(), "doesn\'t match pattern \"^\\d{4}-\\d{2}-\\d{2}$\"");
    }
}

#[test]
fn expiry_info_expiry_accepts_valid_text() {
    for text in ["2026-03", "2026-W12", "2026-03-20"] {
        let v = ExpiryInfoExpiry::from_str(text).unwrap();
        assert_eq!(v.as_str(), text);
        assert_eq!(v.clone().into_string(), text.to_string());
        assert_eq!(text.parse::<ExpiryInfoExpiry>().unwrap(), v);
    }
}

#[test]
fn expiry_info_expiry_refuses_invalid_text() {
    for text in ["2026", "2026-3", "2026-W1", "2026-w12", "2026-03-2", "2026/03", "202603"] {
        let e = ExpiryInfoExpiry::from_str(text).unwrap_err();
        assert_eq!(e.as_str(), "doesn\'t match pattern \"^\\d{4}(-\\d{2}|-W\\d{2}|-\\d{2}-\\d{2})$\"");
    }
}

#[test]
fn expiry_info_last_trading_day_accepts_valid_text() {
    for text in ["2026-03-20", "0000-99-99"] {
        let v = ExpiryInfoLastTradingDay::from_str(text).unwrap();
        assert_eq!(v.as_str(), text);
        assert_eq!(v.clone().into_string(), text.to_string());
        assert_eq!(text.parse::<ExpiryInfoLastTradingDay>().unwrap(), v);
    }
}

#[test]
fn expiry_info_last_trading_day_refuses_invalid_text() {
    for text in ["2026/03/20", "20260320", "26-03-20", "2026-3-20", "2026-03-20T00", "２026-03-20"] {
        let e = ExpiryInfoLastTradingDay::from_str(text).unwrap_err();
        assert_eq!(e.as_str(), "doesn\'t match pattern \"^\\d{4}-\\d{2}-\\d{2}$\"");
    }
}

#[test]
fn expiry_info_settlement_date_accepts_valid_text() {
    for text in ["2026-03-20", "0000-99-99"] {
        let v = ExpiryInfoSettlementDate::from_str(text).unwrap();
        assert_eq!(v.as_str(), text);
        assert_eq!(v.clone().into_string(), text.to_string());
        assert_eq!(text.parse::<ExpiryInfoSettlementDate>().unwrap(), v);
    }
}

#[test]
fn expiry_info_settlement_date_refuses_invalid_text() {
    for text in ["2026/03/20", "20260320", "26-03-20", "2026-3-20", "2026-03-20T00", "２026-03-20"] {
        let e = ExpiryInfoSettlementDate::from_str(text).unwrap_err();
        assert_eq!(e.as_str(), "doesn\'t match pattern \"^\\d{4}-\\d{2}-\\d{2}$\"");
    }
}

#[test]
fn instrument_base_currency_accepts_valid_text() {
    for text in ["USD", "JPY", "EUR"] {
        let v = InstrumentBaseCurrency::from_str(text).unwrap();
        assert_eq!(v.as_str(), text);
        assert_eq!(v.clone().into_string(), text.to_string());
        assert_eq!(text.parse::<InstrumentBaseCurrency>().unwrap(), v);
    }
}

#[test]
fn instrument_base_currency_refuses_invalid_text() {
    for text in ["jpy", "JP", "JPYY", "", "J1Y", " JPY"] {
        let e = InstrumentBaseCurrency::from_str(text).unwrap_err();
        assert_eq!(e.as_str(), "doesn\'t match pattern \"^[A-Z]{3}$\"");
    }
}

#[test]
fn instrument_currency_accepts_valid_text() {
    for text in ["USD", "JPY", "EUR"] {
        let v = InstrumentCurrency::from_str(text).unwrap();
        assert_eq!(v.as_str(), text);
        assert_eq!(v.clone().into_string(), text.to_string());
        assert_eq!(text.parse::<InstrumentCurrency>().unwrap(), v);
    }
}

#[test]
fn instrument_currency_refuses_invalid_text() {
    for text in ["jpy", "JP", "JPYY", "", "J1Y", " JPY"] {
        let e = InstrumentCurrency::from_str(text).unwrap_err();
        assert_eq!(e.as_str(), "doesn\'t match pattern \"^[A-Z]{3}$\"");
    }
}

#[test]
fn instrument_exchange_accepts_valid_text() {
    for text in ["XJPX", "XNYS"] {
        let v = InstrumentExchange::from_str(text).unwrap();
        assert_eq!(v.as_str(), text);
        assert_eq!(v.clone().into_string(), text.to_string());
        assert_eq!(text.parse::<InstrumentExchange>().unwrap(), v);
    }
}

#[test]
fn instrument_exchange_refuses_invalid_text() {
    for text in ["XJP", "xjpx", "XJPXX", "X1PX"] {
        let e = InstrumentExchange::from_str(text).unwrap_err();
        assert_eq!(e.as_str(), "doesn\'t match pattern \"^[A-Z]{4}$\"");
    }
}

#[test]
fn instrument_quote_currency_accepts_valid_text() {
    for text in ["USD", "JPY", "EUR"] {
        let v = InstrumentQuoteCurrency::from_str(text).unwrap();
        assert_eq!(v.as_str(), text);
        assert_eq!(v.clone().into_string(), text.to_string());
        assert_eq!(text.parse::<InstrumentQuoteCurrency>().unwrap(), v);
    }
}

#[test]
fn instrument_quote_currency_refuses_invalid_text() {
    for text in ["jpy", "JP", "JPYY", "", "J1Y", " JPY"] {
        let e = InstrumentQuoteCurrency::from_str(text).unwrap_err();
        assert_eq!(e.as_str(), "doesn\'t match pattern \"^[A-Z]{3}$\"");
    }
}

#[test]
fn instrument_symbol_accepts_valid_text() {
    for text in ["7203.T", "A", "BTC-USD", "トヨタ"] {
        let v = InstrumentSymbol::from_str(text).unwrap();
        assert_eq!(v.as_str(), text);
        assert_eq!(v.clone().into_string(), text.to_string());
        assert_eq!(text.parse::<InstrumentSymbol>().unwrap(), v);
    }
}

#[test]
fn instrument_symbol_refuses_invalid_text() {
    for text in [""] {
        let e = InstrumentSymbol::from_str(text).unwrap_err();
        assert_eq!(e.as_str(), "shorter than 1 characters");
    }
}

#[test]
fn ohlcv_symbol_accepts_valid_text() {
    for text in ["7203.T", "A", "BTC-USD", "トヨタ"] {
        let v = OhlcvSymbol::from_str(text).unwrap();
        assert_eq!(v.as_str(), text);
        assert_eq!(v.clone().into_string(), text.to_string());
        assert_eq!(text.parse::<OhlcvSymbol>().unwrap(), v);
    }
}

#[test]
fn ohlcv_symbol_refuses_invalid_text() {
    for text in [""] {
        let e = OhlcvSymbol::from_str(text).unwrap_err();
        assert_eq!(e.as_str(), "shorter than 1 characters");
    }
}

#[test]
fn order_book_symbol_accepts_valid_text() {
    for text in ["7203.T", "A", "BTC-USD", "トヨタ"] {
        let v = OrderBookSymbol::from_str(text).unwrap();
        assert_eq!(v.as_str(), text);
        assert_eq!(v.clone().into_string(), text.to_string());
        assert_eq!(text.parse::<OrderBookSymbol>().unwrap(), v);
    }
}

#[test]
fn order_book_symbol_refuses_invalid_text() {
    for text in [""] {
        let e = OrderBookSymbol::from_str(text).unwrap_err();
        assert_eq!(e.as_str(), "shorter than 1 characters");
    }
}

#[test]
fn quote_symbol_accepts_valid_text() {
    for text in ["7203.T", "A", "BTC-USD", "トヨタ"] {
        let v = QuoteSymbol::from_str(text).unwrap();
        assert_eq!(v.as_str(), text);
        assert_eq!(v.clone().into_string(), text.to_string());
        assert_eq!(text.parse::<QuoteSymbol>().unwrap(), v);
    }
}

#[test]
fn quote_symbol_refuses_invalid_text() {
    for text in [""] {
        let e = QuoteSymbol::from_str(text).unwrap_err();
        assert_eq!(e.as_str(), "shorter than 1 characters");
    }
}

#[test]
fn trade_symbol_accepts_valid_text() {
    for text in ["7203.T", "A", "BTC-USD", "トヨタ"] {
        let v = TradeSymbol::from_str(text).unwrap();
        assert_eq!(v.as_str(), text);
        assert_eq!(v.clone().into_string(), text.to_string());
        assert_eq!(text.parse::<TradeSymbol>().unwrap(), v);
    }
}

#[test]
fn trade_symbol_refuses_invalid_text() {
    for text in [""] {
        let e = TradeSymbol::from_str(text).unwrap_err();
        assert_eq!(e.as_str(), "shorter than 1 characters");
    }
}

#[test]
fn volume_info_symbol_accepts_valid_text() {
    for text in ["7203.T", "A", "BTC-USD", "トヨタ"] {
        let v = VolumeInfoSymbol::from_str(text).unwrap();
        assert_eq!(v.as_str(), text);
        assert_eq!(v.clone().into_string(), text.to_string());
        assert_eq!(text.parse::<VolumeInfoSymbol>().unwrap(), v);
    }
}

#[test]
fn volume_info_symbol_refuses_invalid_text() {
    for text in [""] {
        let e = VolumeInfoSymbol::from_str(text).unwrap_err();
        assert_eq!(e.as_str(), "shorter than 1 characters");
    }
}
