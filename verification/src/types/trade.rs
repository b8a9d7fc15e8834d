//! Field types of executed trades.

pub use crate::types::error;

use vstd::prelude::*;

use crate::types::error::ConversionError;
use crate::types::field_input::FieldInput;
use crate::types::text::{is_symbol, str_eq, symbol_too_short};

verus! {

/// Trade direction.
///
/// The schema names its values `buy`, `sell`.
#[derive(Clone, Copy, Debug, PartialEq, Eq, Structural, Hash, PartialOrd, Ord)]
pub enum TradeSide {
    Buy,
    Sell,
}

impl View for TradeSide {
    type V = TradeSide;

    open spec fn view(&self) -> TradeSide {
        *self
    }
}

impl DeepView for TradeSide {
    type V = TradeSide;

    open spec fn deep_view(&self) -> TradeSide {
        *self
    }
}

impl TradeSide {
    /// The schema's name of each value.
    pub open spec fn name(self) -> Seq<char> {
        match self {
            TradeSide::Buy => "buy"@,
            TradeSide::Sell => "sell"@,
        }
    }

    /// The value that the text `s` names, if any.
    pub open spec fn parse(s: Seq<char>) -> Option<TradeSide> {
        if s == "buy"@ {
            Some(TradeSide::Buy)
        } else if s == "sell"@ {
            Some(TradeSide::Sell)
        } else {
            None
        }
    }

    /// The schema's name of this value.
    pub fn as_str(&self) -> (r: &'static str)
        ensures
            r@ == self.name(),
    {
        match self {
            TradeSide::Buy => "buy",
            TradeSide::Sell => "sell",
        }
    }

    /// The schema's name of this value, as an owned string.
    pub fn to_string(&self) -> (r: String)
        ensures
            r@ == self.name(),
    {
        self.as_str().to_owned()
    }

    /// The value that `value` names; any other text is refused.
    pub fn from_str(value: &str) -> (r: Result<TradeSide, ConversionError>)
        ensures
            match r {
                Ok(v) => TradeSide::parse(value@) == Some(v),
                Err(e) => TradeSide::parse(value@) is None && e@ == "invalid value"@,
            },
    {
        if str_eq(value, "buy") {
            Ok(TradeSide::Buy)
        } else if str_eq(value, "sell") {
            Ok(TradeSide::Sell)
        } else {
            Err("invalid value".to_owned())
        }
    }
}

/// Each value is read back from its name, and text that is read as a value
/// is that value's name: `from_str` undoes `to_string`.
pub proof fn lemma_trade_side_names(v: TradeSide)
    ensures
        TradeSide::parse(v.name()) == Some(v),
        forall|s: Seq<char>| TradeSide::parse(s) == Some(v) ==> s == v.name(),
{
    reveal_strlit("buy");
    reveal_strlit("sell");
    assert("buy"@.len() == 3);
    assert("sell"@.len() == 4);
}

impl std::str::FromStr for TradeSide {
    type Err = ConversionError;

    fn from_str(value: &str) -> (r: Result<TradeSide, ConversionError>)
        ensures
            match r {
                Ok(v) => TradeSide::parse(value@) == Some(v),
                Err(e) => TradeSide::parse(value@) is None && e@ == "invalid value"@,
            },
    {
        TradeSide::from_str(value)
    }
}

impl FieldInput<TradeSide> for TradeSide {
    open spec fn converted(&self) -> Result<TradeSide, Seq<char>> {
        Ok(*self)
    }

    fn into_field(self) -> (r: Result<TradeSide, ConversionError>) {
        Ok(self)
    }
}

impl<'a> FieldInput<TradeSide> for &'a str {
    open spec fn converted(&self) -> Result<TradeSide, Seq<char>> {
        match TradeSide::parse(self@) {
            Some(v) => Ok(v),
            None => Err("invalid value"@),
        }
    }

    fn into_field(self) -> (r: Result<TradeSide, ConversionError>) {
        TradeSide::from_str(self)
    }
}

impl<'a> FieldInput<TradeSide> for &'a String {
    open spec fn converted(&self) -> Result<TradeSide, Seq<char>> {
        match TradeSide::parse(self@) {
            Some(v) => Ok(v),
            None => Err("invalid value"@),
        }
    }

    fn into_field(self) -> (r: Result<TradeSide, ConversionError>) {
        TradeSide::from_str(self.as_str())
    }
}

impl FieldInput<TradeSide> for String {
    open spec fn converted(&self) -> Result<TradeSide, Seq<char>> {
        match TradeSide::parse(self@) {
            Some(v) => Ok(v),
            None => Err("invalid value"@),
        }
    }

    fn into_field(self) -> (r: Result<TradeSide, ConversionError>) {
        TradeSide::from_str(self.as_str())
    }
}

impl<'a> FieldInput<TradeSide> for &'a TradeSide {
    open spec fn converted(&self) -> Result<TradeSide, Seq<char>> {
        Ok(**self)
    }

    fn into_field(self) -> (r: Result<TradeSide, ConversionError>) {
        Ok(*self)
    }
}

/// What a builder setter makes of each kind of input for a `TradeSide` field:
/// a value (or a reference to one) stands for itself, and text of any of the
/// three string kinds is read exactly as `from_str` reads it: the value that
/// the text names, or `invalid value`.
pub proof fn lemma_trade_side_inputs(v: TradeSide, t: &str, w: &String, u: String)
    ensures
        <TradeSide as FieldInput<TradeSide>>::converted(&v) == Ok::<TradeSide, Seq<char>>(v),
        <&TradeSide as FieldInput<TradeSide>>::converted(&&v) == Ok::<TradeSide, Seq<char>>(v),
        <&str as FieldInput<TradeSide>>::converted(&t) matches Ok(x) ==> TradeSide::parse(t@) == Some(x),
        <&str as FieldInput<TradeSide>>::converted(&t) matches Err(e) ==> TradeSide::parse(t@) is None && e == "invalid value"@,
        TradeSide::parse(t@) matches Some(x) ==> <&str as FieldInput<TradeSide>>::converted(&t) == Ok::<TradeSide, Seq<char>>(x),
        <&String as FieldInput<TradeSide>>::converted(&w) matches Ok(x) ==> TradeSide::parse(w@) == Some(x),
        <&String as FieldInput<TradeSide>>::converted(&w) matches Err(e) ==> TradeSide::parse(w@) is None && e == "invalid value"@,
        TradeSide::parse(w@) matches Some(x) ==> <&String as FieldInput<TradeSide>>::converted(&w) == Ok::<TradeSide, Seq<char>>(x),
        <String as FieldInput<TradeSide>>::converted(&u) matches Ok(x) ==> TradeSide::parse(u@) == Some(x),
        <String as FieldInput<TradeSide>>::converted(&u) matches Err(e) ==> TradeSide::parse(u@) is None && e == "invalid value"@,
        TradeSide::parse(u@) matches Some(x) ==> <String as FieldInput<TradeSide>>::converted(&u) == Ok::<TradeSide, Seq<char>>(x),
{
}

impl<'a> TryFrom<&'a str> for TradeSide {
    type Error = ConversionError;

    fn try_from(value: &'a str) -> (r: Result<TradeSide, ConversionError>)
        ensures
            match r {
                Ok(v) => TradeSide::parse(value@) == Some(v),
                Err(e) => TradeSide::parse(value@) is None && e@ == "invalid value"@,
            },
    {
        TradeSide::from_str(value)
    }
}

/// The contract of this conversion is the one on its `try_from` above;
/// nothing is claimed through the generic specification.
impl<'a> vstd::std_specs::convert::TryFromSpecImpl<&'a str> for TradeSide {
    open spec fn obeys_try_from_spec() -> bool {
        false
    }

    open spec fn try_from_spec(value: &'a str) -> Result<TradeSide, ConversionError> {
        arbitrary()
    }
}

impl<'a> TryFrom<&'a String> for TradeSide {
    type Error = ConversionError;

    fn try_from(value: &'a String) -> (r: Result<TradeSide, ConversionError>)
        ensures
            match r {
                Ok(v) => TradeSide::parse(value@) == Some(v),
                Err(e) => TradeSide::parse(value@) is None && e@ == "invalid value"@,
            },
    {
        TradeSide::from_str(value.as_str())
    }
}

/// The contract of this conversion is the one on its `try_from` above;
/// nothing is claimed through the generic specification.
impl<'a> vstd::std_specs::convert::TryFromSpecImpl<&'a String> for TradeSide {
    open spec fn obeys_try_from_spec() -> bool {
        false
    }

    open spec fn try_from_spec(value: &'a String) -> Result<TradeSide, ConversionError> {
        arbitrary()
    }
}

impl TryFrom<String> for TradeSide {
    type Error = ConversionError;

    fn try_from(value: String) -> (r: Result<TradeSide, ConversionError>)
        ensures
            match r {
                Ok(v) => TradeSide::parse(value@) == Some(v),
                Err(e) => TradeSide::parse(value@) is None && e@ == "invalid value"@,
            },
    {
        TradeSide::from_str(value.as_str())
    }
}

/// The contract of this conversion is the one on its `try_from` above;
/// nothing is claimed through the generic specification.
impl vstd::std_specs::convert::TryFromSpecImpl<String> for TradeSide {
    open spec fn obeys_try_from_spec() -> bool {
        false
    }

    open spec fn try_from_spec(value: String) -> Result<TradeSide, ConversionError> {
        arbitrary()
    }
}

/// Instrument identifier of a trade.
///
/// The text of every value has at least one character.
#[derive(Debug, PartialEq, Eq, Hash, PartialOrd, Ord)]
pub struct TradeSymbol(String);

impl TradeSymbol {
    #[verifier::type_invariant]
    spec fn well_formed(self) -> bool {
        is_symbol(self.0@)
    }
}

impl View for TradeSymbol {
    type V = Seq<char>;

    closed spec fn view(&self) -> Seq<char> {
        self.0@
    }
}

impl DeepView for TradeSymbol {
    type V = Seq<char>;

    open spec fn deep_view(&self) -> Seq<char> {
        self@
    }
}

impl Clone for TradeSymbol {
    fn clone(&self) -> (r: Self)
        ensures
            r@ == self@,
    {
        proof {
            use_type_invariant(self);
        }
        TradeSymbol(self.0.clone())
    }
}

impl TradeSymbol {
    /// Validates `value`: it is accepted exactly when it has at least one character.
    pub fn from_str(value: &str) -> (r: Result<TradeSymbol, ConversionError>)
        ensures
            r is Ok <==> is_symbol(value@),
            r matches Ok(v) ==> v@ == value@,
            r matches Err(e) ==> e@ == symbol_too_short(),
    {
        if value.unicode_len() < 1 {
            return Err("shorter than 1 characters".to_owned());
        }
        Ok(TradeSymbol(value.to_owned()))
    }

    /// The text of this value.
    pub fn as_str(&self) -> (r: &str)
        ensures
            r@ == self@,
            is_symbol(r@),
    {
        proof {
            use_type_invariant(self);
        }
        self.0.as_str()
    }

    /// The text of this value, as an owned string.
    pub fn into_string(self) -> (r: String)
        ensures
            r@ == self@,
            is_symbol(r@),
    {
        proof {
            use_type_invariant(&self);
        }
        self.0
    }
}

impl std::str::FromStr for TradeSymbol {
    type Err = ConversionError;

    fn from_str(value: &str) -> (r: Result<TradeSymbol, ConversionError>)
        ensures
            r is Ok <==> is_symbol(value@),
            r matches Ok(v) ==> v@ == value@,
            r matches Err(e) ==> e@ == symbol_too_short(),
    {
        TradeSymbol::from_str(value)
    }
}

impl FieldInput<TradeSymbol> for TradeSymbol {
    open spec fn converted(&self) -> Result<Seq<char>, Seq<char>> {
        Ok(self@)
    }

    fn into_field(self) -> (r: Result<TradeSymbol, ConversionError>) {
        Ok(self)
    }
}

impl<'a> FieldInput<TradeSymbol> for &'a str {
    open spec fn converted(&self) -> Result<Seq<char>, Seq<char>> {
        if is_symbol(self@) {
            Ok(self@)
        } else {
            Err(symbol_too_short())
        }
    }

    fn into_field(self) -> (r: Result<TradeSymbol, ConversionError>) {
        TradeSymbol::from_str(self)
    }
}

impl<'a> FieldInput<TradeSymbol> for &'a String {
    open spec fn converted(&self) -> Result<Seq<char>, Seq<char>> {
        if is_symbol(self@) {
            Ok(self@)
        } else {
            Err(symbol_too_short())
        }
    }

    fn into_field(self) -> (r: Result<TradeSymbol, ConversionError>) {
        TradeSymbol::from_str(self.as_str())
    }
}

impl FieldInput<TradeSymbol> for String {
    open spec fn converted(&self) -> Result<Seq<char>, Seq<char>> {
        if is_symbol(self@) {
            Ok(self@)
        } else {
            Err(symbol_too_short())
        }
    }

    fn into_field(self) -> (r: Result<TradeSymbol, ConversionError>) {
        TradeSymbol::from_str(self.as_str())
    }
}

impl<'a> FieldInput<TradeSymbol> for &'a TradeSymbol {
    open spec fn converted(&self) -> Result<Seq<char>, Seq<char>> {
        Ok(self@)
    }

    fn into_field(self) -> (r: Result<TradeSymbol, ConversionError>) {
        Ok(self.clone())
    }
}

impl<'a> TryFrom<&'a str> for TradeSymbol {
    type Error = ConversionError;

    fn try_from(value: &'a str) -> (r: Result<TradeSymbol, ConversionError>)
        ensures
            r is Ok <==> is_symbol(value@),
            r matches Ok(v) ==> v@ == value@,
            r matches Err(e) ==> e@ == symbol_too_short(),
    {
        TradeSymbol::from_str(value)
    }
}

/// The contract of this conversion is the one on its `try_from` above;
/// nothing is claimed through the generic specification.
impl<'a> vstd::std_specs::convert::TryFromSpecImpl<&'a str> for TradeSymbol {
    open spec fn obeys_try_from_spec() -> bool {
        false
    }

    open spec fn try_from_spec(value: &'a str) -> Result<TradeSymbol, ConversionError> {
        arbitrary()
    }
}

impl<'a> TryFrom<&'a String> for TradeSymbol {
    type Error = ConversionError;

    fn try_from(value: &'a String) -> (r: Result<TradeSymbol, ConversionError>)
        ensures
            r is Ok <==> is_symbol(value@),
            r matches Ok(v) ==> v@ == value@,
            r matches Err(e) ==> e@ == symbol_too_short(),
    {
        TradeSymbol::from_str(value.as_str())
    }
}

/// The contract of this conversion is the one on its `try_from` above;
/// nothing is claimed through the generic specification.
impl<'a> vstd::std_specs::convert::TryFromSpecImpl<&'a String> for TradeSymbol {
    open spec fn obeys_try_from_spec() -> bool {
        false
    }

    open spec fn try_from_spec(value: &'a String) -> Result<TradeSymbol, ConversionError> {
        arbitrary()
    }
}

impl TryFrom<String> for TradeSymbol {
    type Error = ConversionError;

    fn try_from(value: String) -> (r: Result<TradeSymbol, ConversionError>)
        ensures
            r is Ok <==> is_symbol(value@),
            r matches Ok(v) ==> v@ == value@,
            r matches Err(e) ==> e@ == symbol_too_short(),
    {
        TradeSymbol::from_str(value.as_str())
    }
}

/// The contract of this conversion is the one on its `try_from` above;
/// nothing is claimed through the generic specification.
impl vstd::std_specs::convert::TryFromSpecImpl<String> for TradeSymbol {
    open spec fn obeys_try_from_spec() -> bool {
        false
    }

    open spec fn try_from_spec(value: String) -> Result<TradeSymbol, ConversionError> {
        arbitrary()
    }
}

/// What a builder setter makes of each kind of input for a `TradeSymbol` field:
/// a value (or a reference to one) stands for itself, and text of any of the
/// three string kinds is read exactly as `from_str` reads it: accepted, with
/// its own text, when it has at least one character, refused with `from_str`'s message otherwise.
pub proof fn lemma_trade_symbol_inputs(v: TradeSymbol, o: Option<TradeSymbol>, t: &str, w: &String, u: String)
    ensures
        <TradeSymbol as FieldInput<TradeSymbol>>::converted(&v) == Ok::<Seq<char>, Seq<char>>(v@),
        <&TradeSymbol as FieldInput<TradeSymbol>>::converted(&&v) == Ok::<Seq<char>, Seq<char>>(v@),
        <&str as FieldInput<TradeSymbol>>::converted(&t) is Ok <==> is_symbol(t@),
        <&str as FieldInput<TradeSymbol>>::converted(&t) matches Ok(x) ==> x == t@,
        <&str as FieldInput<TradeSymbol>>::converted(&t) matches Err(e) ==> e == symbol_too_short(),
        <&String as FieldInput<TradeSymbol>>::converted(&w) is Ok <==> is_symbol(w@),
        <&String as FieldInput<TradeSymbol>>::converted(&w) matches Ok(x) ==> x == w@,
        <&String as FieldInput<TradeSymbol>>::converted(&w) matches Err(e) ==> e == symbol_too_short(),
        <String as FieldInput<TradeSymbol>>::converted(&u) is Ok <==> is_symbol(u@),
        <String as FieldInput<TradeSymbol>>::converted(&u) matches Ok(x) ==> x == u@,
        <String as FieldInput<TradeSymbol>>::converted(&u) matches Err(e) ==> e == symbol_too_short(),
{
}

} // verus!
