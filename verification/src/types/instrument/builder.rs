//! Builder of `Instrument`.

use vstd::prelude::*;

use crate::types::error::ConversionError;
use crate::types::field_input::{field_view, record, supplied, FieldInput};

use super::{
    InstrumentAssetClass, InstrumentBaseCurrency, InstrumentCurrency, InstrumentExchange,
    InstrumentQuoteCurrency, InstrumentSymbol,
};

verus! {

/// Builder of an `Instrument`.  Each field holds a value, or the message of
/// why it has none: it was never supplied, or what was supplied did not
/// convert.
#[derive(Debug)]
pub struct Instrument {
    asset_class: Result<InstrumentAssetClass, String>,
    base_currency: Result<Option<InstrumentBaseCurrency>, String>,
    currency: Result<Option<InstrumentCurrency>, String>,
    exchange: Result<Option<InstrumentExchange>, String>,
    quote_currency: Result<Option<InstrumentQuoteCurrency>, String>,
    symbol: Result<InstrumentSymbol, String>,
}

/// A builder over views: each field's value or text, or its message.
pub struct InstrumentView {
    pub asset_class: Result<InstrumentAssetClass, Seq<char>>,
    pub base_currency: Result<Option<Seq<char>>, Seq<char>>,
    pub currency: Result<Option<Seq<char>>, Seq<char>>,
    pub exchange: Result<Option<Seq<char>>, Seq<char>>,
    pub quote_currency: Result<Option<Seq<char>>, Seq<char>>,
    pub symbol: Result<Seq<char>, Seq<char>>,
}

impl View for Instrument {
    type V = InstrumentView;

    closed spec fn view(&self) -> InstrumentView {
        InstrumentView {
            asset_class: field_view(self.asset_class),
            base_currency: field_view(self.base_currency),
            currency: field_view(self.currency),
            exchange: field_view(self.exchange),
            quote_currency: field_view(self.quote_currency),
            symbol: field_view(self.symbol),
        }
    }
}

impl InstrumentView {
    /// A new builder: the required asset class and symbol are missing, the
    /// optional fields are absent.
    pub open spec fn fresh() -> InstrumentView {
        InstrumentView {
            asset_class: Err("no value supplied for asset_class"@),
            base_currency: Ok(None),
            currency: Ok(None),
            exchange: Ok(None),
            quote_currency: Ok(None),
            symbol: Err("no value supplied for symbol"@),
        }
    }

    /// A builder that holds the fields of the record `m`.
    pub open spec fn of_record(m: super::InstrumentView) -> InstrumentView {
        InstrumentView {
            asset_class: Ok(m.asset_class),
            base_currency: Ok(m.base_currency),
            currency: Ok(m.currency),
            exchange: Ok(m.exchange),
            quote_currency: Ok(m.quote_currency),
            symbol: Ok(m.symbol),
        }
    }

    /// What building gives: the record when every field holds a value, else
    /// the message of the first field, in declaration order, that holds one.
    pub open spec fn build(self) -> Result<super::InstrumentView, Seq<char>> {
        match self.asset_class {
            Err(m) => Err(m),
            Ok(asset_class) =>             match self.base_currency {
                Err(m) => Err(m),
                Ok(base_currency) =>                 match self.currency {
                    Err(m) => Err(m),
                    Ok(currency) =>                     match self.exchange {
                        Err(m) => Err(m),
                        Ok(exchange) =>                         match self.quote_currency {
                            Err(m) => Err(m),
                            Ok(quote_currency) =>                             match self.symbol {
                                Err(m) => Err(m),
                                Ok(symbol) => Ok(
                                    super::InstrumentView {
                                        asset_class,
                                        base_currency,
                                        currency,
                                        exchange,
                                        quote_currency,
                                        symbol,
                                    },
                                ),
                            },
                        },
                    },
                },
            },
        }
    }
}

impl Clone for Instrument {
    fn clone(&self) -> (r: Self)
        ensures
            r@ == self@,
    {
        Instrument {
            asset_class: match &self.asset_class {
                Ok(v) => Ok(v.clone()),
                Err(m) => Err(m.clone()),
            },
            base_currency: match &self.base_currency {
                Ok(Some(v)) => Ok(Some(v.clone())),
                Ok(None) => Ok(None),
                Err(m) => Err(m.clone()),
            },
            currency: match &self.currency {
                Ok(Some(v)) => Ok(Some(v.clone())),
                Ok(None) => Ok(None),
                Err(m) => Err(m.clone()),
            },
            exchange: match &self.exchange {
                Ok(Some(v)) => Ok(Some(v.clone())),
                Ok(None) => Ok(None),
                Err(m) => Err(m.clone()),
            },
            quote_currency: match &self.quote_currency {
                Ok(Some(v)) => Ok(Some(v.clone())),
                Ok(None) => Ok(None),
                Err(m) => Err(m.clone()),
            },
            symbol: match &self.symbol {
                Ok(v) => Ok(v.clone()),
                Err(m) => Err(m.clone()),
            },
        }
    }
}

impl Default for Instrument {
    fn default() -> (r: Instrument)
        ensures
            r@ == InstrumentView::fresh(),
    {
        Instrument {
            asset_class: Err("no value supplied for asset_class".to_owned()),
            base_currency: Ok(None),
            currency: Ok(None),
            exchange: Ok(None),
            quote_currency: Ok(None),
            symbol: Err("no value supplied for symbol".to_owned()),
        }
    }
}

impl Instrument {
    /// Sets the asset class from `value`, or records why it did not convert.
    pub fn asset_class<T: FieldInput<InstrumentAssetClass>>(self, value: T) -> (r: Instrument)
        ensures
            r@ == (InstrumentView {
                asset_class: supplied("error converting supplied value for asset_class: "@, value.converted()),
                ..self@
            }),
    {
        let mut b = self;
        b.asset_class = record("error converting supplied value for asset_class: ", value);
        b
    }

    /// Sets the base currency from `value`, or records why it did not convert.
    pub fn base_currency<T: FieldInput<Option<InstrumentBaseCurrency>>>(self, value: T) -> (r: Instrument)
        ensures
            r@ == (InstrumentView {
                base_currency: supplied("error converting supplied value for base_currency: "@, value.converted()),
                ..self@
            }),
    {
        let mut b = self;
        b.base_currency = record("error converting supplied value for base_currency: ", value);
        b
    }

    /// Sets the currency from `value`, or records why it did not convert.
    pub fn currency<T: FieldInput<Option<InstrumentCurrency>>>(self, value: T) -> (r: Instrument)
        ensures
            r@ == (InstrumentView {
                currency: supplied("error converting supplied value for currency: "@, value.converted()),
                ..self@
            }),
    {
        let mut b = self;
        b.currency = record("error converting supplied value for currency: ", value);
        b
    }

    /// Sets the listing exchange from `value`, or records why it did not convert.
    pub fn exchange<T: FieldInput<Option<InstrumentExchange>>>(self, value: T) -> (r: Instrument)
        ensures
            r@ == (InstrumentView {
                exchange: supplied("error converting supplied value for exchange: "@, value.converted()),
                ..self@
            }),
    {
        let mut b = self;
        b.exchange = record("error converting supplied value for exchange: ", value);
        b
    }

    /// Sets the quote currency from `value`, or records why it did not convert.
    pub fn quote_currency<T: FieldInput<Option<InstrumentQuoteCurrency>>>(self, value: T) -> (r: Instrument)
        ensures
            r@ == (InstrumentView {
                quote_currency: supplied("error converting supplied value for quote_currency: "@, value.converted()),
                ..self@
            }),
    {
        let mut b = self;
        b.quote_currency = record("error converting supplied value for quote_currency: ", value);
        b
    }

    /// Sets the symbol from `value`, or records why it did not convert.
    pub fn symbol<T: FieldInput<InstrumentSymbol>>(self, value: T) -> (r: Instrument)
        ensures
            r@ == (InstrumentView {
                symbol: supplied("error converting supplied value for symbol: "@, value.converted()),
                ..self@
            }),
    {
        let mut b = self;
        b.symbol = record("error converting supplied value for symbol: ", value);
        b
    }

    /// A builder that holds the fields of `value`.
    pub fn from(value: super::Instrument) -> (r: Instrument)
        ensures
            r@ == InstrumentView::of_record(value@),
            r@.asset_class == Ok::<InstrumentAssetClass, Seq<char>>(value@.asset_class),
            r@.base_currency == Ok::<Option<Seq<char>>, Seq<char>>(value@.base_currency),
            r@.currency == Ok::<Option<Seq<char>>, Seq<char>>(value@.currency),
            r@.exchange == Ok::<Option<Seq<char>>, Seq<char>>(value@.exchange),
            r@.quote_currency == Ok::<Option<Seq<char>>, Seq<char>>(value@.quote_currency),
            r@.symbol == Ok::<Seq<char>, Seq<char>>(value@.symbol),
    {
        let super::Instrument { asset_class, base_currency, currency, exchange, quote_currency, symbol } = value;
        Instrument {
            asset_class: Ok(asset_class),
            base_currency: Ok(base_currency),
            currency: Ok(currency),
            exchange: Ok(exchange),
            quote_currency: Ok(quote_currency),
            symbol: Ok(symbol),
        }
    }
}

impl super::Instrument {
    /// Builds the record: it fails with the message of the first field, in
    /// declaration order, that holds no value.
    pub fn try_from(value: Instrument) -> (r: Result<super::Instrument, ConversionError>)
        ensures
            match r {
                Ok(m) => value@.build() == Ok::<super::InstrumentView, Seq<char>>(m@),
                Err(e) => value@.build() == Err::<super::InstrumentView, Seq<char>>(e@),
            },
            r matches Ok(m) ==> value@.asset_class == Ok::<InstrumentAssetClass, Seq<char>>(m@.asset_class),
            r matches Ok(m) ==> value@.base_currency == Ok::<Option<Seq<char>>, Seq<char>>(m@.base_currency),
            r matches Ok(m) ==> value@.currency == Ok::<Option<Seq<char>>, Seq<char>>(m@.currency),
            r matches Ok(m) ==> value@.exchange == Ok::<Option<Seq<char>>, Seq<char>>(m@.exchange),
            r matches Ok(m) ==> value@.quote_currency == Ok::<Option<Seq<char>>, Seq<char>>(m@.quote_currency),
            r matches Ok(m) ==> value@.symbol == Ok::<Seq<char>, Seq<char>>(m@.symbol),
    {
        let Instrument { asset_class, base_currency, currency, exchange, quote_currency, symbol } = value;
        let asset_class = match asset_class {
            Ok(v) => v,
            Err(m) => {
                return Err(m);
            },
        };
        let base_currency = match base_currency {
            Ok(v) => v,
            Err(m) => {
                return Err(m);
            },
        };
        let currency = match currency {
            Ok(v) => v,
            Err(m) => {
                return Err(m);
            },
        };
        let exchange = match exchange {
            Ok(v) => v,
            Err(m) => {
                return Err(m);
            },
        };
        let quote_currency = match quote_currency {
            Ok(v) => v,
            Err(m) => {
                return Err(m);
            },
        };
        let symbol = match symbol {
            Ok(v) => v,
            Err(m) => {
                return Err(m);
            },
        };
        Ok(super::Instrument { asset_class, base_currency, currency, exchange, quote_currency, symbol })
    }
}

/// Building from a builder that holds a record's fields gives back that
/// record: `try_from` undoes `from`.
pub proof fn lemma_build_of_record(m: super::InstrumentView)
    ensures
        InstrumentView::of_record(m).build() == Ok::<super::InstrumentView, Seq<char>>(m),
{
}

/// A new builder does not build: it reports the missing asset class, the
/// first required field.
pub proof fn lemma_fresh_misses_asset_class()
    ensures
        InstrumentView::fresh().build() == Err::<super::InstrumentView, Seq<char>>(
            "no value supplied for asset_class"@,
        ),
{
}

/// A new builder that got an asset class but no symbol reports the missing symbol.
pub proof fn lemma_fresh_with_asset_class_misses_symbol(a: InstrumentAssetClass)
    ensures
        (InstrumentView { asset_class: Ok(a), ..InstrumentView::fresh() }).build()
            == Err::<super::InstrumentView, Seq<char>>("no value supplied for symbol"@),
{
}

/// A new builder that got an asset class and a symbol builds a record with
/// them and no optional field.
pub proof fn lemma_fresh_with_required_fields(a: InstrumentAssetClass, symbol: Seq<char>)
    ensures
        (InstrumentView { asset_class: Ok(a), symbol: Ok(symbol), ..InstrumentView::fresh() }).build()
            == Ok::<super::InstrumentView, Seq<char>>(
            super::InstrumentView {
                asset_class: a,
                base_currency: None,
                currency: None,
                exchange: None,
                quote_currency: None,
                symbol,
            },
        ),
{
}

/// Building takes each record field from the builder field of the same name:
/// it succeeds exactly when every field holds a value, and then each record
/// field is that value; otherwise it fails with the message of the first
/// field, in declaration order, that holds one.
pub proof fn lemma_build_field_by_field(b: InstrumentView)
    ensures
        b.build() is Ok <==> (b.asset_class is Ok && b.base_currency is Ok && b.currency is Ok && b.exchange is Ok && b.quote_currency is Ok && b.symbol is Ok),
        b.build() matches Ok(m) ==> b.asset_class == Ok::<InstrumentAssetClass, Seq<char>>(m.asset_class),
        b.build() matches Ok(m) ==> b.base_currency == Ok::<Option<Seq<char>>, Seq<char>>(m.base_currency),
        b.build() matches Ok(m) ==> b.currency == Ok::<Option<Seq<char>>, Seq<char>>(m.currency),
        b.build() matches Ok(m) ==> b.exchange == Ok::<Option<Seq<char>>, Seq<char>>(m.exchange),
        b.build() matches Ok(m) ==> b.quote_currency == Ok::<Option<Seq<char>>, Seq<char>>(m.quote_currency),
        b.build() matches Ok(m) ==> b.symbol == Ok::<Seq<char>, Seq<char>>(m.symbol),
        b.asset_class matches Err(e) ==> b.build() == Err::<super::InstrumentView, Seq<char>>(e),
        (b.asset_class is Ok) ==> (b.base_currency matches Err(e) ==> b.build() == Err::<super::InstrumentView, Seq<char>>(e)),
        (b.asset_class is Ok && b.base_currency is Ok) ==> (b.currency matches Err(e) ==> b.build() == Err::<super::InstrumentView, Seq<char>>(e)),
        (b.asset_class is Ok && b.base_currency is Ok && b.currency is Ok) ==> (b.exchange matches Err(e) ==> b.build() == Err::<super::InstrumentView, Seq<char>>(e)),
        (b.asset_class is Ok && b.base_currency is Ok && b.currency is Ok && b.exchange is Ok) ==> (b.quote_currency matches Err(e) ==> b.build() == Err::<super::InstrumentView, Seq<char>>(e)),
        (b.asset_class is Ok && b.base_currency is Ok && b.currency is Ok && b.exchange is Ok && b.quote_currency is Ok) ==> (b.symbol matches Err(e) ==> b.build() == Err::<super::InstrumentView, Seq<char>>(e)),
{
}

/// A builder made from a record holds, in each field, the record's field of
/// the same name.
pub proof fn lemma_of_record_field_by_field(m: super::InstrumentView)
    ensures
        InstrumentView::of_record(m).asset_class == Ok::<InstrumentAssetClass, Seq<char>>(m.asset_class),
        InstrumentView::of_record(m).base_currency == Ok::<Option<Seq<char>>, Seq<char>>(m.base_currency),
        InstrumentView::of_record(m).currency == Ok::<Option<Seq<char>>, Seq<char>>(m.currency),
        InstrumentView::of_record(m).exchange == Ok::<Option<Seq<char>>, Seq<char>>(m.exchange),
        InstrumentView::of_record(m).quote_currency == Ok::<Option<Seq<char>>, Seq<char>>(m.quote_currency),
        InstrumentView::of_record(m).symbol == Ok::<Seq<char>, Seq<char>>(m.symbol),
{
}

/// A new builder holds no optional field and, in each required field, the
/// message that names that field as not supplied.
pub proof fn lemma_fresh_field_by_field()
    ensures
        InstrumentView::fresh().asset_class == Err::<InstrumentAssetClass, Seq<char>>("no value supplied for asset_class"@),
        InstrumentView::fresh().base_currency == Ok::<Option<Seq<char>>, Seq<char>>(None),
        InstrumentView::fresh().currency == Ok::<Option<Seq<char>>, Seq<char>>(None),
        InstrumentView::fresh().exchange == Ok::<Option<Seq<char>>, Seq<char>>(None),
        InstrumentView::fresh().quote_currency == Ok::<Option<Seq<char>>, Seq<char>>(None),
        InstrumentView::fresh().symbol == Err::<Seq<char>, Seq<char>>("no value supplied for symbol"@),
{
}

} // verus!
