//! Builder of `ExpiryInfo`.

use vstd::prelude::*;

use crate::types::error::ConversionError;
use crate::types::field_input::{field_view, record, supplied, FieldInput};

use super::{ExpiryInfoExpirationDate, ExpiryInfoExpiry, ExpiryInfoLastTradingDay, ExpiryInfoSettlementDate};

verus! {

/// Builder of an `ExpiryInfo`.  Each field holds a value, or the message
/// of why it has none: it was never supplied, or what was supplied did not
/// convert.
#[derive(Debug)]
pub struct ExpiryInfo {
    expiration_date: Result<ExpiryInfoExpirationDate, String>,
    expiry: Result<Option<ExpiryInfoExpiry>, String>,
    last_trading_day: Result<Option<ExpiryInfoLastTradingDay>, String>,
    settlement_date: Result<Option<ExpiryInfoSettlementDate>, String>,
}

/// A builder over views: each field's text, or its message.
pub struct ExpiryInfoView {
    pub expiration_date: Result<Seq<char>, Seq<char>>,
    pub expiry: Result<Option<Seq<char>>, Seq<char>>,
    pub last_trading_day: Result<Option<Seq<char>>, Seq<char>>,
    pub settlement_date: Result<Option<Seq<char>>, Seq<char>>,
}

impl View for ExpiryInfo {
    type V = ExpiryInfoView;

    closed spec fn view(&self) -> ExpiryInfoView {
        ExpiryInfoView {
            expiration_date: field_view(self.expiration_date),
            expiry: field_view(self.expiry),
            last_trading_day: field_view(self.last_trading_day),
            settlement_date: field_view(self.settlement_date),
        }
    }
}

impl ExpiryInfoView {
    /// A new builder: the required expiration date is missing, the optional
    /// fields are absent.
    pub open spec fn fresh() -> ExpiryInfoView {
        ExpiryInfoView {
            expiration_date: Err("no value supplied for expiration_date"@),
            expiry: Ok(None),
            last_trading_day: Ok(None),
            settlement_date: Ok(None),
        }
    }

    /// A builder that holds the fields of the record `m`.
    pub open spec fn of_record(m: super::ExpiryInfoView) -> ExpiryInfoView {
        ExpiryInfoView {
            expiration_date: Ok(m.expiration_date),
            expiry: Ok(m.expiry),
            last_trading_day: Ok(m.last_trading_day),
            settlement_date: Ok(m.settlement_date),
        }
    }

    /// What building gives: the record when every field holds a value, else
    /// the message of the first field, in declaration order, that holds one.
    pub open spec fn build(self) -> Result<super::ExpiryInfoView, Seq<char>> {
        match self.expiration_date {
            Err(m) => Err(m),
            Ok(expiration_date) => match self.expiry {
                Err(m) => Err(m),
                Ok(expiry) => match self.last_trading_day {
                    Err(m) => Err(m),
                    Ok(last_trading_day) => match self.settlement_date {
                        Err(m) => Err(m),
                        Ok(settlement_date) => Ok(
                            super::ExpiryInfoView {
                                expiration_date,
                                expiry,
                                last_trading_day,
                                settlement_date,
                            },
                        ),
                    },
                },
            },
        }
    }
}

impl Clone for ExpiryInfo {
    fn clone(&self) -> (r: Self)
        ensures
            r@ == self@,
    {
        ExpiryInfo {
            expiration_date: match &self.expiration_date {
                Ok(v) => Ok(v.clone()),
                Err(m) => Err(m.clone()),
            },
            expiry: match &self.expiry {
                Ok(Some(v)) => Ok(Some(v.clone())),
                Ok(None) => Ok(None),
                Err(m) => Err(m.clone()),
            },
            last_trading_day: match &self.last_trading_day {
                Ok(Some(v)) => Ok(Some(v.clone())),
                Ok(None) => Ok(None),
                Err(m) => Err(m.clone()),
            },
            settlement_date: match &self.settlement_date {
                Ok(Some(v)) => Ok(Some(v.clone())),
                Ok(None) => Ok(None),
                Err(m) => Err(m.clone()),
            },
        }
    }
}

impl Default for ExpiryInfo {
    fn default() -> (r: ExpiryInfo)
        ensures
            r@ == ExpiryInfoView::fresh(),
    {
        ExpiryInfo {
            expiration_date: Err("no value supplied for expiration_date".to_owned()),
            expiry: Ok(None),
            last_trading_day: Ok(None),
            settlement_date: Ok(None),
        }
    }
}

impl ExpiryInfo {
    /// Sets the expiration date from `value`, or records why it did not convert.
    pub fn expiration_date<T: FieldInput<ExpiryInfoExpirationDate>>(self, value: T) -> (r: ExpiryInfo)
        ensures
            r@ == (ExpiryInfoView {
                expiration_date: supplied(
                    "error converting supplied value for expiration_date: "@,
                    value.converted(),
                ),
                ..self@
            }),
    {
        let mut b = self;
        b.expiration_date = record("error converting supplied value for expiration_date: ", value);
        b
    }

    /// Sets the expiry series from `value`, or records why it did not convert.
    pub fn expiry<T: FieldInput<Option<ExpiryInfoExpiry>>>(self, value: T) -> (r: ExpiryInfo)
        ensures
            r@ == (ExpiryInfoView {
                expiry: supplied("error converting supplied value for expiry: "@, value.converted()),
                ..self@
            }),
    {
        let mut b = self;
        b.expiry = record("error converting supplied value for expiry: ", value);
        b
    }

    /// Sets the last trading day from `value`, or records why it did not convert.
    pub fn last_trading_day<T: FieldInput<Option<ExpiryInfoLastTradingDay>>>(self, value: T) -> (r: ExpiryInfo)
        ensures
            r@ == (ExpiryInfoView {
                last_trading_day: supplied(
                    "error converting supplied value for last_trading_day: "@,
                    value.converted(),
                ),
                ..self@
            }),
    {
        let mut b = self;
        b.last_trading_day = record("error converting supplied value for last_trading_day: ", value);
        b
    }

    /// Sets the settlement date from `value`, or records why it did not convert.
    pub fn settlement_date<T: FieldInput<Option<ExpiryInfoSettlementDate>>>(self, value: T) -> (r: ExpiryInfo)
        ensures
            r@ == (ExpiryInfoView {
                settlement_date: supplied(
                    "error converting supplied value for settlement_date: "@,
                    value.converted(),
                ),
                ..self@
            }),
    {
        let mut b = self;
        b.settlement_date = record("error converting supplied value for settlement_date: ", value);
        b
    }

    /// A builder that holds the fields of `value`.
    pub fn from(value: super::ExpiryInfo) -> (r: ExpiryInfo)
        ensures
            r@ == ExpiryInfoView::of_record(value@),
            r@.expiration_date == Ok::<Seq<char>, Seq<char>>(value@.expiration_date),
            r@.expiry == Ok::<Option<Seq<char>>, Seq<char>>(value@.expiry),
            r@.last_trading_day == Ok::<Option<Seq<char>>, Seq<char>>(value@.last_trading_day),
            r@.settlement_date == Ok::<Option<Seq<char>>, Seq<char>>(value@.settlement_date),
    {
        let super::ExpiryInfo { expiration_date, expiry, last_trading_day, settlement_date } = value;
        ExpiryInfo {
            expiration_date: Ok(expiration_date),
            expiry: Ok(expiry),
            last_trading_day: Ok(last_trading_day),
            settlement_date: Ok(settlement_date),
        }
    }
}

impl super::ExpiryInfo {
    /// Builds the record: it fails with the message of the first field, in
    /// declaration order, that holds no value.
    pub fn try_from(value: ExpiryInfo) -> (r: Result<super::ExpiryInfo, ConversionError>)
        ensures
            match r {
                Ok(m) => value@.build() == Ok::<super::ExpiryInfoView, Seq<char>>(m@),
                Err(e) => value@.build() == Err::<super::ExpiryInfoView, Seq<char>>(e@),
            },
            r matches Ok(m) ==> value@.expiration_date == Ok::<Seq<char>, Seq<char>>(m@.expiration_date),
            r matches Ok(m) ==> value@.expiry == Ok::<Option<Seq<char>>, Seq<char>>(m@.expiry),
            r matches Ok(m) ==> value@.last_trading_day == Ok::<Option<Seq<char>>, Seq<char>>(m@.last_trading_day),
            r matches Ok(m) ==> value@.settlement_date == Ok::<Option<Seq<char>>, Seq<char>>(m@.settlement_date),
    {
        let ExpiryInfo { expiration_date, expiry, last_trading_day, settlement_date } = value;
        let expiration_date = match expiration_date {
            Ok(v) => v,
            Err(m) => {
                return Err(m);
            },
        };
        let expiry = match expiry {
            Ok(v) => v,
            Err(m) => {
                return Err(m);
            },
        };
        let last_trading_day = match last_trading_day {
            Ok(v) => v,
            Err(m) => {
                return Err(m);
            },
        };
        let settlement_date = match settlement_date {
            Ok(v) => v,
            Err(m) => {
                return Err(m);
            },
        };
        Ok(super::ExpiryInfo { expiration_date, expiry, last_trading_day, settlement_date })
    }
}

/// Building from a builder that holds a record's fields gives back that
/// record: `try_from` undoes `from`.
pub proof fn lemma_build_of_record(m: super::ExpiryInfoView)
    ensures
        ExpiryInfoView::of_record(m).build() == Ok::<super::ExpiryInfoView, Seq<char>>(m),
{
}

/// A new builder does not build: it reports the missing expiration date.
pub proof fn lemma_fresh_misses_expiration_date()
    ensures
        ExpiryInfoView::fresh().build() == Err::<super::ExpiryInfoView, Seq<char>>(
            "no value supplied for expiration_date"@,
        ),
{
}

/// A new builder that got an expiration date builds a record with that date
/// and no optional field.
pub proof fn lemma_fresh_with_expiration_date(date: Seq<char>)
    ensures
        (ExpiryInfoView { expiration_date: Ok(date), ..ExpiryInfoView::fresh() }).build()
            == Ok::<super::ExpiryInfoView, Seq<char>>(
            super::ExpiryInfoView {
                expiration_date: date,
                expiry: None,
                last_trading_day: None,
                settlement_date: None,
            },
        ),
{
}

/// Building takes each record field from the builder field of the same name:
/// it succeeds exactly when every field holds a value, and then each record
/// field is that value; otherwise it fails with the message of the first
/// field, in declaration order, that holds one.
pub proof fn lemma_build_field_by_field(b: ExpiryInfoView)
    ensures
        b.build() is Ok <==> (b.expiration_date is Ok && b.expiry is Ok && b.last_trading_day is Ok && b.settlement_date is Ok),
        b.build() matches Ok(m) ==> b.expiration_date == Ok::<Seq<char>, Seq<char>>(m.expiration_date),
        b.build() matches Ok(m) ==> b.expiry == Ok::<Option<Seq<char>>, Seq<char>>(m.expiry),
        b.build() matches Ok(m) ==> b.last_trading_day == Ok::<Option<Seq<char>>, Seq<char>>(m.last_trading_day),
        b.build() matches Ok(m) ==> b.settlement_date == Ok::<Option<Seq<char>>, Seq<char>>(m.settlement_date),
        b.expiration_date matches Err(e) ==> b.build() == Err::<super::ExpiryInfoView, Seq<char>>(e),
        (b.expiration_date is Ok) ==> (b.expiry matches Err(e) ==> b.build() == Err::<super::ExpiryInfoView, Seq<char>>(e)),
        (b.expiration_date is Ok && b.expiry is Ok) ==> (b.last_trading_day matches Err(e) ==> b.build() == Err::<super::ExpiryInfoView, Seq<char>>(e)),
        (b.expiration_date is Ok && b.expiry is Ok && b.last_trading_day is Ok) ==> (b.settlement_date matches Err(e) ==> b.build() == Err::<super::ExpiryInfoView, Seq<char>>(e)),
{
}

/// A builder made from a record holds, in each field, the record's field of
/// the same name.
pub proof fn lemma_of_record_field_by_field(m: super::ExpiryInfoView)
    ensures
        ExpiryInfoView::of_record(m).expiration_date == Ok::<Seq<char>, Seq<char>>(m.expiration_date),
        ExpiryInfoView::of_record(m).expiry == Ok::<Option<Seq<char>>, Seq<char>>(m.expiry),
        ExpiryInfoView::of_record(m).last_trading_day == Ok::<Option<Seq<char>>, Seq<char>>(m.last_trading_day),
        ExpiryInfoView::of_record(m).settlement_date == Ok::<Option<Seq<char>>, Seq<char>>(m.settlement_date),
{
}

/// A new builder holds no optional field and, in each required field, the
/// message that names that field as not supplied.
pub proof fn lemma_fresh_field_by_field()
    ensures
        ExpiryInfoView::fresh().expiration_date == Err::<Seq<char>, Seq<char>>("no value supplied for expiration_date"@),
        ExpiryInfoView::fresh().expiry == Ok::<Option<Seq<char>>, Seq<char>>(None),
        ExpiryInfoView::fresh().last_trading_day == Ok::<Option<Seq<char>>, Seq<char>>(None),
        ExpiryInfoView::fresh().settlement_date == Ok::<Option<Seq<char>>, Seq<char>>(None),
{
}

} // verus!
