
use marketschema::types::definitions::AssetClass;
use marketschema::types::definitions::ExerciseStyle;
use marketschema::types::definitions::OptionType;
use marketschema::types::definitions::SettlementMethod;
use marketschema::types::definitions::Side;
use marketschema::types::definitions::UnderlyingType;
use marketschema::types::derivative_info::DerivativeInfoSettlementMethod;
use marketschema::types::derivative_info::DerivativeInfoUnderlyingType;
use marketschema::types::instrument::InstrumentAssetClass;
use marketschema::types::option_info::OptionInfoExerciseStyle;
use marketschema::types::option_info::OptionInfoOptionType;
use marketschema::types::trade::TradeSide;

#[test]
fn asset_class_names_round_trip() {
    for (value, text) in [(AssetClass::Equity, "equity"), (AssetClass::Fund, "fund"), (AssetClass::Bond, "bond"), (AssetClass::Future, "future"), (AssetClass::Option, "option"), (AssetClass::Fx, "fx"), (AssetClass::Crypto, "crypto"), (AssetClass::Cfd, "cfd")] {
        assert_eq!(value.as_str(), text);
        assert_eq!(value.to_string(), text);
        assert_eq!(AssetClass::from_str(text).unwrap(), value);
        assert_eq!(text.parse::<AssetClass>().unwrap(), value);
        assert_eq!(AssetClass::from_str(&value.to_string()).unwrap(), value);
    }
}

#[test]
fn asset_class_refuses_other_text() {
    for text in ["", "invalid", "EQUITY", "equity ", " equity"] {
        let e = AssetClass::from_str(text).unwrap_err();
        assert_eq!(e.as_str(), "invalid value");
    }
}

#[test]
fn exercise_style_names_round_trip() {
    for (value, text) in [(ExerciseStyle::American, "american"), (ExerciseStyle::European, "european"), (ExerciseStyle::Bermudan, "bermudan")] {
        assert_eq!(value.as_str(), text);
        assert_eq!(value.to_string(), text);
        assert_eq!(ExerciseStyle::from_str(text).unwrap(), value);
        assert_eq!(text.parse::<ExerciseStyle>().unwrap(), value);
        assert_eq!(ExerciseStyle::from_str(&value.to_string()).unwrap(), value);
    }
}

#[test]
fn exercise_style_refuses_other_text() {
    for text in ["", "invalid", "AMERICAN", "american ", " american"] {
        let e = ExerciseStyle::from_str(text).unwrap_err();
        assert_eq!(e.as_str(), "invalid value");
    }
}

#[test]
fn option_type_names_round_trip() {
    for (value, text) in [(OptionType::Call, "call"), (OptionType::Put, "put")] {
        assert_eq!(value.as_str(), text);
        assert_eq!(value.to_string(), text);
        assert_eq!(OptionType::from_str(text).unwrap(), value);
        assert_eq!(text.parse::<OptionType>().unwrap(), value);
        assert_eq!(OptionType::from_str(&value.to_string()).unwrap(), value);
    }
}

#[test]
fn option_type_refuses_other_text() {
    for text in ["", "invalid", "CALL", "call ", " call"] {
        let e = OptionType::from_str(text).unwrap_err();
        assert_eq!(e.as_str(), "invalid value");
    }
}

#[test]
fn settlement_method_names_round_trip() {
    for (value, text) in [(SettlementMethod::Cash, "cash"), (SettlementMethod::Physical, "physical")] {
        assert_eq!(value.as_str(), text);
        assert_eq!(value.to_string(), text);
        assert_eq!(SettlementMethod::from_str(text).unwrap(), value);
        assert_eq!(text.parse::<SettlementMethod>().unwrap(), value);
        assert_eq!(SettlementMethod::from_str(&value.to_string()).unwrap(), value);
    }
}

#[test]
fn settlement_method_refuses_other_text() {
    for text in ["", "invalid", "CASH", "cash ", " cash"] {
        let e = SettlementMethod::from_str(text).unwrap_err();
        assert_eq!(e.as_str(), "invalid value");
    }
}

#[test]
fn side_names_round_trip() {
    for (value, text) in [(Side::Buy, "buy"), (Side::Sell, "sell")] {
        assert_eq!(value.as_str(), text);
        assert_eq!(value.to_string(), text);
        assert_eq!(Side::from_str(text).unwrap(), value);
        assert_eq!(text.parse::<Side>().unwrap(), value);
        assert_eq!(Side::from_str(&value.to_string()).unwrap(), value);
    }
}

#[test]
fn side_refuses_other_text() {
    for text in ["", "invalid", "BUY", "buy ", " buy"] {
        let e = Side::from_str(text).unwrap_err();
        assert_eq!(e.as_str(), "invalid value");
    }
}

#[test]
fn underlying_type_names_round_trip() {
    for (value, text) in [(UnderlyingType::Stock, "stock"), (UnderlyingType::Index, "index"), (UnderlyingType::Etf, "etf"), (UnderlyingType::Commodity, "commodity"), (UnderlyingType::Currency, "currency"), (UnderlyingType::Crypto, "crypto")] {
        assert_eq!(value.as_str(), text);
        assert_eq!(value.to_string(), text);
        assert_eq!(UnderlyingType::from_str(text).unwrap(), value);
        assert_eq!(text.parse::<UnderlyingType>().unwrap(), value);
        assert_eq!(UnderlyingType::from_str(&value.to_string()).unwrap(), value);
    }
}

#[test]
fn underlying_type_refuses_other_text() {
    for text in ["", "invalid", "STOCK", "stock ", " stock"] {
        let e = UnderlyingType::from_str(text).unwrap_err();
        assert_eq!(e.as_str(), "invalid value");
    }
}

#[test]
fn derivative_info_settlement_method_names_round_trip() {
    for (value, text) in [(DerivativeInfoSettlementMethod::Cash, "cash"), (DerivativeInfoSettlementMethod::Physical, "physical")] {
        assert_eq!(value.as_str(), text);
        assert_eq!(value.to_string(), text);
        assert_eq!(DerivativeInfoSettlementMethod::from_str(text).unwrap(), value);
        assert_eq!(text.parse::<DerivativeInfoSettlementMethod>().unwrap(), value);
        assert_eq!(DerivativeInfoSettlementMethod::from_str(&value.to_string()).unwrap(), value);
    }
}

#[test]
fn derivative_info_settlement_method_refuses_other_text() {
    for text in ["", "invalid", "CASH", "cash ", " cash"] {
        let e = DerivativeInfoSettlementMethod::from_str(text).unwrap_err();
        assert_eq!(e.as_str(), "invalid value");
    }
}

#[test]
fn derivative_info_underlying_type_names_round_trip() {
    for (value, text) in [(DerivativeInfoUnderlyingType::Stock, "stock"), (DerivativeInfoUnderlyingType::Index, "index"), (DerivativeInfoUnderlyingType::Etf, "etf"), (DerivativeInfoUnderlyingType::Commodity, "commodity"), (DerivativeInfoUnderlyingType::Currency, "currency"), (DerivativeInfoUnderlyingType::Crypto, "crypto")] {
        assert_eq!(value.as_str(), text);
        assert_eq!(value.to_string(), text);
        assert_eq!(DerivativeInfoUnderlyingType::from_str(text).unwrap(), value);
        assert_eq!(text.parse::<DerivativeInfoUnderlyingType>().unwrap(), value);
        assert_eq!(DerivativeInfoUnderlyingType::from_str(&value.to_string()).unwrap(), value);
    }
}

#[test]
fn derivative_info_underlying_type_refuses_other_text() {
    for text in ["", "invalid", "STOCK", "stock ", " stock"] {
        let e = DerivativeInfoUnderlyingType::from_str(text).unwrap_err();
        assert_eq!(e.as_str(), "invalid value");
    }
}

#[test]
fn instrument_asset_class_names_round_trip() {
    for (value, text) in [(InstrumentAssetClass::Equity, "equity"), (InstrumentAssetClass::Fund, "fund"), (InstrumentAssetClass::Bond, "bond"), (InstrumentAssetClass::Future, "future"), (InstrumentAssetClass::Option, "option"), (InstrumentAssetClass::Fx, "fx"), (InstrumentAssetClass::Crypto, "crypto"), (InstrumentAssetClass::Cfd, "cfd")] {
        assert_eq!(value.as_str(), text);
        assert_eq!(value.to_string(), text);
        assert_eq!(InstrumentAssetClass::from_str(text).unwrap(), value);
        assert_eq!(text.parse::<InstrumentAssetClass>().unwrap(), value);
        assert_eq!(InstrumentAssetClass::from_str(&value.to_string()).unwrap(), value);
    }
}

#[test]
fn instrument_asset_class_refuses_other_text() {
    for text in ["", "invalid", "EQUITY", "equity ", " equity"] {
        let e = InstrumentAssetClass::from_str(text).unwrap_err();
        assert_eq!(e.as_str(), "invalid value");
    }
}

#[test]
fn option_info_exercise_style_names_round_trip() {
    for (value, text) in [(OptionInfoExerciseStyle::American, "american"), (OptionInfoExerciseStyle::European, "european"), (OptionInfoExerciseStyle::Bermudan, "bermudan")] {
        assert_eq!(value.as_str(), text);
        assert_eq!(value.to_string(), text);
        assert_eq!(OptionInfoExerciseStyle::from_str(text).unwrap(), value);
        assert_eq!(text.parse::<OptionInfoExerciseStyle>().unwrap(), value);
        assert_eq!(OptionInfoExerciseStyle::from_str(&value.to_string()).unwrap(), value);
    }
}

#[test]
fn option_info_exercise_style_refuses_other_text() {
    for text in ["", "invalid", "AMERICAN", "american ", " american"] {
        let e = OptionInfoExerciseStyle::from_str(text).unwrap_err();
        assert_eq!(e.as_str(), "invalid value");
    }
}

#[test]
fn option_info_option_type_names_round_trip() {
    for (value, text) in [(OptionInfoOptionType::Call, "call"), (OptionInfoOptionType::Put, "put")] {
        assert_eq!(value.as_str(), text);
        assert_eq!(value.to_string(), text);
        assert_eq!(OptionInfoOptionType::from_str(text).unwrap(), value);
        assert_eq!(text.parse::<OptionInfoOptionType>().unwrap(), value);
        assert_eq!(OptionInfoOptionType::from_str(&value.to_string()).unwrap(), value);
    }
}

#[test]
fn option_info_option_type_refuses_other_text() {
    for text in ["", "invalid", "CALL", "call ", " call"] {
        let e = OptionInfoOptionType::from_str(text).unwrap_err();
        assert_eq!(e.as_str(), "invalid value");
    }
}

#[test]
fn trade_side_names_round_trip() {
    for (value, text) in [(TradeSide::Buy, "buy"), (TradeSide::Sell, "sell")] {
        assert_eq!(value.as_str(), text);
        assert_eq!(value.to_string(), text);
        assert_eq!(TradeSide::from_str(text).unwrap(), value);
        assert_eq!(text.parse::<TradeSide>().unwrap(), value);
        assert_eq!(TradeSide::from_str(&value.to_string()).unwrap(), value);
    }
}

#[test]
fn trade_side_refuses_other_text() {
    for text in ["", "invalid", "BUY", "buy ", " buy"] {
        let e = TradeSide::from_str(text).unwrap_err();
        assert_eq!(e.as_str(), "invalid value");
    }
}
