use marketschema::types::definitions::{Date, ExpirySeries};
use marketschema::types::expiry_info::{ExpiryInfoExpirationDate, ExpiryInfoExpiry};

#[test]
fn every_calendar_date_is_an_expiry_series() {
    for text in ["2026-03-20", "1999-12-31", "0000-00-00", "2026-13-40"] {
        assert!(Date::from_str(text).is_ok());
        assert_eq!(ExpirySeries::from_str(text).unwrap().as_str(), text);
        assert!(ExpiryInfoExpirationDate::from_str(text).is_ok());
        assert!(ExpiryInfoExpiry::from_str(text).is_ok());
    }
    // the converse does not hold
    assert!(ExpirySeries::from_str("2026-03").is_ok());
    assert!(Date::from_str("2026-03").is_err());
}

#[test]
fn reading_a_values_text_gives_back_the_value() {
    let d = Date::from_str("2026-02-02").unwrap();
    assert_eq!(Date::from_str(d.as_str()).unwrap(), d);
    let s = ExpirySeries::from_str("2026-W05").unwrap();
    assert_eq!(ExpirySeries::from_str(&s.clone().into_string()).unwrap(), s);
}
