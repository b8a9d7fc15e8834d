//! Field types of best bid and offer quotes.

pub use crate::types::error;

use vstd::prelude::*;

use crate::types::error::ConversionError;
use crate::types::field_input::FieldInput;
use crate::types::text::{is_symbol, symbol_too_short};

verus! {

/// Instrument identifier of a quote.
///
/// The text of every value has at least one character.
#[derive(Debug, PartialEq, Eq, Hash, PartialOrd, Ord)]
pub struct QuoteSymbol(String);

impl QuoteSymbol {
    #[verifier::type_invariant]
    spec fn well_formed(self) -> bool {
        is_symbol(self.0@)
    }
}

impl View for QuoteSymbol {
    type V = Seq<char>;

    closed spec fn view(&self) -> Seq<char> {
        self.0@
    }
}

impl DeepView for QuoteSymbol {
    type V = Seq<char>;

    open spec fn deep_view(&self) -> Seq<char> {
        self@
    }
}

impl Clone for QuoteSymbol {
    fn clone(&self) -> (r: Self)
        ensures
            r@ == self@,
    {
        proof {
            use_type_invariant(self);
        }
        QuoteSymbol(self.0.clone())
    }
}

impl QuoteSymbol {
    /// Validates `value`: it is accepted exactly when it has at least one character.
    pub fn from_str(value: &str) -> (r: Result<QuoteSymbol, ConversionError>)
        ensures
            r is Ok <==> is_symbol(value@),
            r matches Ok(v) ==> v@ == value@,
            r matches Err(e) ==> e@ == symbol_too_short(),
    {
        if value.unicode_len() < 1 {
            return Err("shorter than 1 characters".to_owned());
        }
        Ok(QuoteSymbol(value.to_owned()))
    }

    /// The text of this value.
    pub fn as_str(&self) -> (r: &str)
        ensures
            r@ == self@,
            is_symbol(r@),
    {
        proof {
            use_type_invariant(self);
        }
        self.0.as_str()
    }

    /// The text of this value, as an owned string.
    pub fn into_string(self) -> (r: String)
        ensures
            r@ == self@,
            is_symbol(r@),
    {
        proof {
            use_type_invariant(&self);
        }
        self.0
    }
}

impl std::str::FromStr for QuoteSymbol {
    type Err = ConversionError;

    fn from_str(value: &str) -> (r: Result<QuoteSymbol, ConversionError>)
        ensures
            r is Ok <==> is_symbol(value@),
            r matches Ok(v) ==> v@ == value@,
            r matches Err(e) ==> e@ == symbol_too_short(),
    {
        QuoteSymbol::from_str(value)
    }
}

impl FieldInput<QuoteSymbol> for QuoteSymbol {
    open spec fn converted(&self) -> Result<Seq<char>, Seq<char>> {
        Ok(self@)
    }

    fn into_field(self) -> (r: Result<QuoteSymbol, ConversionError>) {
        Ok(self)
    }
}

impl<'a> FieldInput<QuoteSymbol> for &'a str {
    open spec fn converted(&self) -> Result<Seq<char>, Seq<char>> {
        if is_symbol(self@) {
            Ok(self@)
        } else {
            Err(symbol_too_short())
        }
    }

    fn into_field(self) -> (r: Result<QuoteSymbol, ConversionError>) {
        QuoteSymbol::from_str(self)
    }
}

impl<'a> FieldInput<QuoteSymbol> for &'a String {
    open spec fn converted(&self) -> Result<Seq<char>, Seq<char>> {
        if is_symbol(self@) {
            Ok(self@)
        } else {
            Err(symbol_too_short())
        }
    }

    fn into_field(self) -> (r: Result<QuoteSymbol, ConversionError>) {
        QuoteSymbol::from_str(self.as_str())
    }
}

impl FieldInput<QuoteSymbol> for String {
    open spec fn converted(&self) -> Result<Seq<char>, Seq<char>> {
        if is_symbol(self@) {
            Ok(self@)
        } else {
            Err(symbol_too_short())
        }
    }

    fn into_field(self) -> (r: Result<QuoteSymbol, ConversionError>) {
        QuoteSymbol::from_str(self.as_str())
    }
}

impl<'a> FieldInput<QuoteSymbol> for &'a QuoteSymbol {
    open spec fn converted(&self) -> Result<Seq<char>, Seq<char>> {
        Ok(self@)
    }

    fn into_field(self) -> (r: Result<QuoteSymbol, ConversionError>) {
        Ok(self.clone())
    }
}

impl<'a> TryFrom<&'a str> for QuoteSymbol {
    type Error = ConversionError;

    fn try_from(value: &'a str) -> (r: Result<QuoteSymbol, ConversionError>)
        ensures
            r is Ok <==> is_symbol(value@),
            r matches Ok(v) ==> v@ == value@,
            r matches Err(e) ==> e@ == symbol_too_short(),
    {
        QuoteSymbol::from_str(value)
    }
}

/// The contract of this conversion is the one on its `try_from` above;
/// nothing is claimed through the generic specification.
impl<'a> vstd::std_specs::convert::TryFromSpecImpl<&'a str> for QuoteSymbol {
    open spec fn obeys_try_from_spec() -> bool {
        false
    }

    open spec fn try_from_spec(value: &'a str) -> Result<QuoteSymbol, ConversionError> {
        arbitrary()
    }
}

impl<'a> TryFrom<&'a String> for QuoteSymbol {
    type Error = ConversionError;

    fn try_from(value: &'a String) -> (r: Result<QuoteSymbol, ConversionError>)
        ensures
            r is Ok <==> is_symbol(value@),
            r matches Ok(v) ==> v@ == value@,
            r matches Err(e) ==> e@ == symbol_too_short(),
    {
        QuoteSymbol::from_str(value.as_str())
    }
}

/// The contract of this conversion is the one on its `try_from` above;
/// nothing is claimed through the generic specification.
impl<'a> vstd::std_specs::convert::TryFromSpecImpl<&'a String> for QuoteSymbol {
    open spec fn obeys_try_from_spec() -> bool {
        false
    }

    open spec fn try_from_spec(value: &'a String) -> Result<QuoteSymbol, ConversionError> {
        arbitrary()
    }
}

impl TryFrom<String> for QuoteSymbol {
    type Error = ConversionError;

    fn try_from(value: String) -> (r: Result<QuoteSymbol, ConversionError>)
        ensures
            r is Ok <==> is_symbol(value@),
            r matches Ok(v) ==> v@ == value@,
            r matches Err(e) ==> e@ == symbol_too_short(),
    {
        QuoteSymbol::from_str(value.as_str())
    }
}

/// The contract of this conversion is the one on its `try_from` above;
/// nothing is claimed through the generic specification.
impl vstd::std_specs::convert::TryFromSpecImpl<String> for QuoteSymbol {
    open spec fn obeys_try_from_spec() -> bool {
        false
    }

    open spec fn try_from_spec(value: String) -> Result<QuoteSymbol, ConversionError> {
        arbitrary()
    }
}

/// What a builder setter makes of each kind of input for a `QuoteSymbol` field:
/// a value (or a reference to one) stands for itself, and text of any of the
/// three string kinds is read exactly as `from_str` reads it: accepted, with
/// its own text, when it has at least one character, refused with `from_str`'s message otherwise.
pub proof fn lemma_quote_symbol_inputs(v: QuoteSymbol, o: Option<QuoteSymbol>, t: &str, w: &String, u: String)
    ensures
        <QuoteSymbol as FieldInput<QuoteSymbol>>::converted(&v) == Ok::<Seq<char>, Seq<char>>(v@),
        <&QuoteSymbol as FieldInput<QuoteSymbol>>::converted(&&v) == Ok::<Seq<char>, Seq<char>>(v@),
        <&str as FieldInput<QuoteSymbol>>::converted(&t) is Ok <==> is_symbol(t@),
        <&str as FieldInput<QuoteSymbol>>::converted(&t) matches Ok(x) ==> x == t@,
        <&str as FieldInput<QuoteSymbol>>::converted(&t) matches Err(e) ==> e == symbol_too_short(),
        <&String as FieldInput<QuoteSymbol>>::converted(&w) is Ok <==> is_symbol(w@),
        <&String as FieldInput<QuoteSymbol>>::converted(&w) matches Ok(x) ==> x == w@,
        <&String as FieldInput<QuoteSymbol>>::converted(&w) matches Err(e) ==> e == symbol_too_short(),
        <String as FieldInput<QuoteSymbol>>::converted(&u) is Ok <==> is_symbol(u@),
        <String as FieldInput<QuoteSymbol>>::converted(&u) matches Ok(x) ==> x == u@,
        <String as FieldInput<QuoteSymbol>>::converted(&u) matches Err(e) ==> e == symbol_too_short(),
{
}

} // verus!
