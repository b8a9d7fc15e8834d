//! Identification of an instrument.

pub mod builder;

pub use crate::types::error;

use vstd::prelude::*;

use crate::types::error::ConversionError;
use crate::types::field_input::FieldInput;
use crate::types::text::{currency_mismatch, is_currency_code, is_market_identifier, is_symbol, market_identifier_mismatch, pattern_found, str_eq, symbol_too_short};

verus! {

/// Asset class of an instrument.
///
/// The schema names its values `equity`, `fund`, `bond`, `future`, `option`, `fx`, `crypto`, `cfd`.
#[derive(Clone, Copy, Debug, PartialEq, Eq, Structural, Hash, PartialOrd, Ord)]
pub enum InstrumentAssetClass {
    Equity,
    Fund,
    Bond,
    Future,
    Option,
    Fx,
    Crypto,
    Cfd,
}

impl View for InstrumentAssetClass {
    type V = InstrumentAssetClass;

    open spec fn view(&self) -> InstrumentAssetClass {
        *self
    }
}

impl DeepView for InstrumentAssetClass {
    type V = InstrumentAssetClass;

    open spec fn deep_view(&self) -> InstrumentAssetClass {
        *self
    }
}

impl InstrumentAssetClass {
    /// The schema's name of each value.
    pub open spec fn name(self) -> Seq<char> {
        match self {
            InstrumentAssetClass::Equity => "equity"@,
            InstrumentAssetClass::Fund => "fund"@,
            InstrumentAssetClass::Bond => "bond"@,
            InstrumentAssetClass::Future => "future"@,
            InstrumentAssetClass::Option => "option"@,
            InstrumentAssetClass::Fx => "fx"@,
            InstrumentAssetClass::Crypto => "crypto"@,
            InstrumentAssetClass::Cfd => "cfd"@,
        }
    }

    /// The value that the text `s` names, if any.
    pub open spec fn parse(s: Seq<char>) -> Option<InstrumentAssetClass> {
        if s == "equity"@ {
            Some(InstrumentAssetClass::Equity)
        } else if s == "fund"@ {
            Some(InstrumentAssetClass::Fund)
        } else if s == "bond"@ {
            Some(InstrumentAssetClass::Bond)
        } else if s == "future"@ {
            Some(InstrumentAssetClass::Future)
        } else if s == "option"@ {
            Some(InstrumentAssetClass::Option)
        } else if s == "fx"@ {
            Some(InstrumentAssetClass::Fx)
        } else if s == "crypto"@ {
            Some(InstrumentAssetClass::Crypto)
        } else if s == "cfd"@ {
            Some(InstrumentAssetClass::Cfd)
        } else {
            None
        }
    }

    /// The schema's name of this value.
    pub fn as_str(&self) -> (r: &'static str)
        ensures
            r@ == self.name(),
    {
        match self {
            InstrumentAssetClass::Equity => "equity",
            InstrumentAssetClass::Fund => "fund",
            InstrumentAssetClass::Bond => "bond",
            InstrumentAssetClass::Future => "future",
            InstrumentAssetClass::Option => "option",
            InstrumentAssetClass::Fx => "fx",
            InstrumentAssetClass::Crypto => "crypto",
            InstrumentAssetClass::Cfd => "cfd",
        }
    }

    /// The schema's name of this value, as an owned string.
    pub fn to_string(&self) -> (r: String)
        ensures
            r@ == self.name(),
    {
        self.as_str().to_owned()
    }

    /// The value that `value` names; any other text is refused.
    pub fn from_str(value: &str) -> (r: Result<InstrumentAssetClass, ConversionError>)
        ensures
            match r {
                Ok(v) => InstrumentAssetClass::parse(value@) == Some(v),
                Err(e) => InstrumentAssetClass::parse(value@) is None && e@ == "invalid value"@,
            },
    {
        if str_eq(value, "equity") {
            Ok(InstrumentAssetClass::Equity)
        } else if str_eq(value, "fund") {
            Ok(InstrumentAssetClass::Fund)
        } else if str_eq(value, "bond") {
            Ok(InstrumentAssetClass::Bond)
        } else if str_eq(value, "future") {
            Ok(InstrumentAssetClass::Future)
        } else if str_eq(value, "option") {
            Ok(InstrumentAssetClass::Option)
        } else if str_eq(value, "fx") {
            Ok(InstrumentAssetClass::Fx)
        } else if str_eq(value, "crypto") {
            Ok(InstrumentAssetClass::Crypto)
        } else if str_eq(value, "cfd") {
            Ok(InstrumentAssetClass::Cfd)
        } else {
            Err("invalid value".to_owned())
        }
    }
}

/// Each value is read back from its name, and text that is read as a value
/// is that value's name: `from_str` undoes `to_string`.
pub proof fn lemma_instrument_asset_class_names(v: InstrumentAssetClass)
    ensures
        InstrumentAssetClass::parse(v.name()) == Some(v),
        forall|s: Seq<char>| InstrumentAssetClass::parse(s) == Some(v) ==> s == v.name(),
{
    reveal_strlit("equity");
    reveal_strlit("fund");
    reveal_strlit("bond");
    reveal_strlit("future");
    reveal_strlit("option");
    reveal_strlit("fx");
    reveal_strlit("crypto");
    reveal_strlit("cfd");
    assert("equity"@.len() == 6);
    assert("equity"@[0] == 'e');
    assert("fund"@.len() == 4);
    assert("fund"@[0] == 'f');
    assert("bond"@.len() == 4);
    assert("bond"@[0] == 'b');
    assert("future"@.len() == 6);
    assert("future"@[0] == 'f');
    assert("option"@.len() == 6);
    assert("option"@[0] == 'o');
    assert("fx"@.len() == 2);
    assert("crypto"@.len() == 6);
    assert("crypto"@[0] == 'c');
    assert("cfd"@.len() == 3);
}

impl std::str::FromStr for InstrumentAssetClass {
    type Err = ConversionError;

    fn from_str(value: &str) -> (r: Result<InstrumentAssetClass, ConversionError>)
        ensures
            match r {
                Ok(v) => InstrumentAssetClass::parse(value@) == Some(v),
                Err(e) => InstrumentAssetClass::parse(value@) is None && e@ == "invalid value"@,
            },
    {
        InstrumentAssetClass::from_str(value)
    }
}

impl FieldInput<InstrumentAssetClass> for InstrumentAssetClass {
    open spec fn converted(&self) -> Result<InstrumentAssetClass, Seq<char>> {
        Ok(*self)
    }

    fn into_field(self) -> (r: Result<InstrumentAssetClass, ConversionError>) {
        Ok(self)
    }
}

impl<'a> FieldInput<InstrumentAssetClass> for &'a str {
    open spec fn converted(&self) -> Result<InstrumentAssetClass, Seq<char>> {
        match InstrumentAssetClass::parse(self@) {
            Some(v) => Ok(v),
            None => Err("invalid value"@),
        }
    }

    fn into_field(self) -> (r: Result<InstrumentAssetClass, ConversionError>) {
        InstrumentAssetClass::from_str(self)
    }
}

impl<'a> FieldInput<InstrumentAssetClass> for &'a String {
    open spec fn converted(&self) -> Result<InstrumentAssetClass, Seq<char>> {
        match InstrumentAssetClass::parse(self@) {
            Some(v) => Ok(v),
            None => Err("invalid value"@),
        }
    }

    fn into_field(self) -> (r: Result<InstrumentAssetClass, ConversionError>) {
        InstrumentAssetClass::from_str(self.as_str())
    }
}

impl FieldInput<InstrumentAssetClass> for String {
    open spec fn converted(&self) -> Result<InstrumentAssetClass, Seq<char>> {
        match InstrumentAssetClass::parse(self@) {
            Some(v) => Ok(v),
            None => Err("invalid value"@),
        }
    }

    fn into_field(self) -> (r: Result<InstrumentAssetClass, ConversionError>) {
        InstrumentAssetClass::from_str(self.as_str())
    }
}

impl<'a> FieldInput<InstrumentAssetClass> for &'a InstrumentAssetClass {
    open spec fn converted(&self) -> Result<InstrumentAssetClass, Seq<char>> {
        Ok(**self)
    }

    fn into_field(self) -> (r: Result<InstrumentAssetClass, ConversionError>) {
        Ok(*self)
    }
}

/// What a builder setter makes of each kind of input for a `InstrumentAssetClass` field:
/// a value (or a reference to one) stands for itself, and text of any of the
/// three string kinds is read exactly as `from_str` reads it: the value that
/// the text names, or `invalid value`.
pub proof fn lemma_instrument_asset_class_inputs(v: InstrumentAssetClass, t: &str, w: &String, u: String)
    ensures
        <InstrumentAssetClass as FieldInput<InstrumentAssetClass>>::converted(&v) == Ok::<InstrumentAssetClass, Seq<char>>(v),
        <&InstrumentAssetClass as FieldInput<InstrumentAssetClass>>::converted(&&v) == Ok::<InstrumentAssetClass, Seq<char>>(v),
        <&str as FieldInput<InstrumentAssetClass>>::converted(&t) matches Ok(x) ==> InstrumentAssetClass::parse(t@) == Some(x),
        <&str as FieldInput<InstrumentAssetClass>>::converted(&t) matches Err(e) ==> InstrumentAssetClass::parse(t@) is None && e == "invalid value"@,
        InstrumentAssetClass::parse(t@) matches Some(x) ==> <&str as FieldInput<InstrumentAssetClass>>::converted(&t) == Ok::<InstrumentAssetClass, Seq<char>>(x),
        <&String as FieldInput<InstrumentAssetClass>>::converted(&w) matches Ok(x) ==> InstrumentAssetClass::parse(w@) == Some(x),
        <&String as FieldInput<InstrumentAssetClass>>::converted(&w) matches Err(e) ==> InstrumentAssetClass::parse(w@) is None && e == "invalid value"@,
        InstrumentAssetClass::parse(w@) matches Some(x) ==> <&String as FieldInput<InstrumentAssetClass>>::converted(&w) == Ok::<InstrumentAssetClass, Seq<char>>(x),
        <String as FieldInput<InstrumentAssetClass>>::converted(&u) matches Ok(x) ==> InstrumentAssetClass::parse(u@) == Some(x),
        <String as FieldInput<InstrumentAssetClass>>::converted(&u) matches Err(e) ==> InstrumentAssetClass::parse(u@) is None && e == "invalid value"@,
        InstrumentAssetClass::parse(u@) matches Some(x) ==> <String as FieldInput<InstrumentAssetClass>>::converted(&u) == Ok::<InstrumentAssetClass, Seq<char>>(x),
{
}

impl<'a> TryFrom<&'a str> for InstrumentAssetClass {
    type Error = ConversionError;

    fn try_from(value: &'a str) -> (r: Result<InstrumentAssetClass, ConversionError>)
        ensures
            match r {
                Ok(v) => InstrumentAssetClass::parse(value@) == Some(v),
                Err(e) => InstrumentAssetClass::parse(value@) is None && e@ == "invalid value"@,
            },
    {
        InstrumentAssetClass::from_str(value)
    }
}

/// The contract of this conversion is the one on its `try_from` above;
/// nothing is claimed through the generic specification.
impl<'a> vstd::std_specs::convert::TryFromSpecImpl<&'a str> for InstrumentAssetClass {
    open spec fn obeys_try_from_spec() -> bool {
        false
    }

    open spec fn try_from_spec(value: &'a str) -> Result<InstrumentAssetClass, ConversionError> {
        arbitrary()
    }
}

impl<'a> TryFrom<&'a String> for InstrumentAssetClass {
    type Error = ConversionError;

    fn try_from(value: &'a String) -> (r: Result<InstrumentAssetClass, ConversionError>)
        ensures
            match r {
                Ok(v) => InstrumentAssetClass::parse(value@) == Some(v),
                Err(e) => InstrumentAssetClass::parse(value@) is None && e@ == "invalid value"@,
            },
    {
        InstrumentAssetClass::from_str(value.as_str())
    }
}

/// The contract of this conversion is the one on its `try_from` above;
/// nothing is claimed through the generic specification.
impl<'a> vstd::std_specs::convert::TryFromSpecImpl<&'a String> for InstrumentAssetClass {
    open spec fn obeys_try_from_spec() -> bool {
        false
    }

    open spec fn try_from_spec(value: &'a String) -> Result<InstrumentAssetClass, ConversionError> {
        arbitrary()
    }
}

impl TryFrom<String> for InstrumentAssetClass {
    type Error = ConversionError;

    fn try_from(value: String) -> (r: Result<InstrumentAssetClass, ConversionError>)
        ensures
            match r {
                Ok(v) => InstrumentAssetClass::parse(value@) == Some(v),
                Err(e) => InstrumentAssetClass::parse(value@) is None && e@ == "invalid value"@,
            },
    {
        InstrumentAssetClass::from_str(value.as_str())
    }
}

/// The contract of this conversion is the one on its `try_from` above;
/// nothing is claimed through the generic specification.
impl vstd::std_specs::convert::TryFromSpecImpl<String> for InstrumentAssetClass {
    open spec fn obeys_try_from_spec() -> bool {
        false
    }

    open spec fn try_from_spec(value: String) -> Result<InstrumentAssetClass, ConversionError> {
        arbitrary()
    }
}

/// Base currency of a currency pair (ISO 4217).
///
/// The text of every value matches `^[A-Z]{3}$`: three upper-case letters.
#[derive(Debug, PartialEq, Eq, Hash, PartialOrd, Ord)]
pub struct InstrumentBaseCurrency(String);

impl InstrumentBaseCurrency {
    #[verifier::type_invariant]
    spec fn well_formed(self) -> bool {
        is_currency_code(self.0@)
    }
}

impl View for InstrumentBaseCurrency {
    type V = Seq<char>;

    closed spec fn view(&self) -> Seq<char> {
        self.0@
    }
}

impl DeepView for InstrumentBaseCurrency {
    type V = Seq<char>;

    open spec fn deep_view(&self) -> Seq<char> {
        self@
    }
}

impl Clone for InstrumentBaseCurrency {
    fn clone(&self) -> (r: Self)
        ensures
            r@ == self@,
    {
        proof {
            use_type_invariant(self);
        }
        InstrumentBaseCurrency(self.0.clone())
    }
}

impl InstrumentBaseCurrency {
    /// Validates `value`: it is accepted exactly when it matches `^[A-Z]{3}$`: three upper-case letters.
    pub fn from_str(value: &str) -> (r: Result<InstrumentBaseCurrency, ConversionError>)
        ensures
            r is Ok <==> is_currency_code(value@),
            r matches Ok(v) ==> v@ == value@,
            r matches Err(e) ==> e@ == currency_mismatch(),
    {
        if !pattern_found("^[A-Z]{3}$", value) {
            return Err("doesn't match pattern \"^[A-Z]{3}$\"".to_owned());
        }
        Ok(InstrumentBaseCurrency(value.to_owned()))
    }

    /// The text of this value.
    pub fn as_str(&self) -> (r: &str)
        ensures
            r@ == self@,
            is_currency_code(r@),
    {
        proof {
            use_type_invariant(self);
        }
        self.0.as_str()
    }

    /// The text of this value, as an owned string.
    pub fn into_string(self) -> (r: String)
        ensures
            r@ == self@,
            is_currency_code(r@),
    {
        proof {
            use_type_invariant(&self);
        }
        self.0
    }
}

impl std::str::FromStr for InstrumentBaseCurrency {
    type Err = ConversionError;

    fn from_str(value: &str) -> (r: Result<InstrumentBaseCurrency, ConversionError>)
        ensures
            r is Ok <==> is_currency_code(value@),
            r matches Ok(v) ==> v@ == value@,
            r matches Err(e) ==> e@ == currency_mismatch(),
    {
        InstrumentBaseCurrency::from_str(value)
    }
}

impl FieldInput<InstrumentBaseCurrency> for InstrumentBaseCurrency {
    open spec fn converted(&self) -> Result<Seq<char>, Seq<char>> {
        Ok(self@)
    }

    fn into_field(self) -> (r: Result<InstrumentBaseCurrency, ConversionError>) {
        Ok(self)
    }
}

impl<'a> FieldInput<InstrumentBaseCurrency> for &'a str {
    open spec fn converted(&self) -> Result<Seq<char>, Seq<char>> {
        if is_currency_code(self@) {
            Ok(self@)
        } else {
            Err(currency_mismatch())
        }
    }

    fn into_field(self) -> (r: Result<InstrumentBaseCurrency, ConversionError>) {
        InstrumentBaseCurrency::from_str(self)
    }
}

impl<'a> FieldInput<InstrumentBaseCurrency> for &'a String {
    open spec fn converted(&self) -> Result<Seq<char>, Seq<char>> {
        if is_currency_code(self@) {
            Ok(self@)
        } else {
            Err(currency_mismatch())
        }
    }

    fn into_field(self) -> (r: Result<InstrumentBaseCurrency, ConversionError>) {
        InstrumentBaseCurrency::from_str(self.as_str())
    }
}

impl FieldInput<InstrumentBaseCurrency> for String {
    open spec fn converted(&self) -> Result<Seq<char>, Seq<char>> {
        if is_currency_code(self@) {
            Ok(self@)
        } else {
            Err(currency_mismatch())
        }
    }

    fn into_field(self) -> (r: Result<InstrumentBaseCurrency, ConversionError>) {
        InstrumentBaseCurrency::from_str(self.as_str())
    }
}

impl<'a> FieldInput<InstrumentBaseCurrency> for &'a InstrumentBaseCurrency {
    open spec fn converted(&self) -> Result<Seq<char>, Seq<char>> {
        Ok(self@)
    }

    fn into_field(self) -> (r: Result<InstrumentBaseCurrency, ConversionError>) {
        Ok(self.clone())
    }
}

impl<'a> TryFrom<&'a str> for InstrumentBaseCurrency {
    type Error = ConversionError;

    fn try_from(value: &'a str) -> (r: Result<InstrumentBaseCurrency, ConversionError>)
        ensures
            r is Ok <==> is_currency_code(value@),
            r matches Ok(v) ==> v@ == value@,
            r matches Err(e) ==> e@ == currency_mismatch(),
    {
        InstrumentBaseCurrency::from_str(value)
    }
}

/// The contract of this conversion is the one on its `try_from` above;
/// nothing is claimed through the generic specification.
impl<'a> vstd::std_specs::convert::TryFromSpecImpl<&'a str> for InstrumentBaseCurrency {
    open spec fn obeys_try_from_spec() -> bool {
        false
    }

    open spec fn try_from_spec(value: &'a str) -> Result<InstrumentBaseCurrency, ConversionError> {
        arbitrary()
    }
}

impl<'a> TryFrom<&'a String> for InstrumentBaseCurrency {
    type Error = ConversionError;

    fn try_from(value: &'a String) -> (r: Result<InstrumentBaseCurrency, ConversionError>)
        ensures
            r is Ok <==> is_currency_code(value@),
            r matches Ok(v) ==> v@ == value@,
            r matches Err(e) ==> e@ == currency_mismatch(),
    {
        InstrumentBaseCurrency::from_str(value.as_str())
    }
}

/// The contract of this conversion is the one on its `try_from` above;
/// nothing is claimed through the generic specification.
impl<'a> vstd::std_specs::convert::TryFromSpecImpl<&'a String> for InstrumentBaseCurrency {
    open spec fn obeys_try_from_spec() -> bool {
        false
    }

    open spec fn try_from_spec(value: &'a String) -> Result<InstrumentBaseCurrency, ConversionError> {
        arbitrary()
    }
}

impl TryFrom<String> for InstrumentBaseCurrency {
    type Error = ConversionError;

    fn try_from(value: String) -> (r: Result<InstrumentBaseCurrency, ConversionError>)
        ensures
            r is Ok <==> is_currency_code(value@),
            r matches Ok(v) ==> v@ == value@,
            r matches Err(e) ==> e@ == currency_mismatch(),
    {
        InstrumentBaseCurrency::from_str(value.as_str())
    }
}

/// The contract of this conversion is the one on its `try_from` above;
/// nothing is claimed through the generic specification.
impl vstd::std_specs::convert::TryFromSpecImpl<String> for InstrumentBaseCurrency {
    open spec fn obeys_try_from_spec() -> bool {
        false
    }

    open spec fn try_from_spec(value: String) -> Result<InstrumentBaseCurrency, ConversionError> {
        arbitrary()
    }
}

/// What a builder setter makes of each kind of input for a `InstrumentBaseCurrency` field:
/// a value (or a reference to one) stands for itself, and text of any of the
/// three string kinds is read exactly as `from_str` reads it: accepted, with
/// its own text, when it matches `^[A-Z]{3}$`: three upper-case letters, refused with `from_str`'s message otherwise.
pub proof fn lemma_instrument_base_currency_inputs(v: InstrumentBaseCurrency, o: Option<InstrumentBaseCurrency>, t: &str, w: &String, u: String)
    ensures
        <InstrumentBaseCurrency as FieldInput<InstrumentBaseCurrency>>::converted(&v) == Ok::<Seq<char>, Seq<char>>(v@),
        <&InstrumentBaseCurrency as FieldInput<InstrumentBaseCurrency>>::converted(&&v) == Ok::<Seq<char>, Seq<char>>(v@),
        <&str as FieldInput<InstrumentBaseCurrency>>::converted(&t) is Ok <==> is_currency_code(t@),
        <&str as FieldInput<InstrumentBaseCurrency>>::converted(&t) matches Ok(x) ==> x == t@,
        <&str as FieldInput<InstrumentBaseCurrency>>::converted(&t) matches Err(e) ==> e == currency_mismatch(),
        <&String as FieldInput<InstrumentBaseCurrency>>::converted(&w) is Ok <==> is_currency_code(w@),
        <&String as FieldInput<InstrumentBaseCurrency>>::converted(&w) matches Ok(x) ==> x == w@,
        <&String as FieldInput<InstrumentBaseCurrency>>::converted(&w) matches Err(e) ==> e == currency_mismatch(),
        <String as FieldInput<InstrumentBaseCurrency>>::converted(&u) is Ok <==> is_currency_code(u@),
        <String as FieldInput<InstrumentBaseCurrency>>::converted(&u) matches Ok(x) ==> x == u@,
        <String as FieldInput<InstrumentBaseCurrency>>::converted(&u) matches Err(e) ==> e == currency_mismatch(),
        <Option<InstrumentBaseCurrency> as FieldInput<Option<InstrumentBaseCurrency>>>::converted(&o)
            == Ok::<Option<Seq<char>>, Seq<char>>(o.deep_view()),
        <InstrumentBaseCurrency as FieldInput<Option<InstrumentBaseCurrency>>>::converted(&v)
            == Ok::<Option<Seq<char>>, Seq<char>>(Some(v@)),
{
}

impl FieldInput<Option<InstrumentBaseCurrency>> for Option<InstrumentBaseCurrency> {
    open spec fn converted(&self) -> Result<Option<Seq<char>>, Seq<char>> {
        Ok(self.deep_view())
    }

    fn into_field(self) -> (r: Result<Option<InstrumentBaseCurrency>, ConversionError>) {
        Ok(self)
    }
}

impl FieldInput<Option<InstrumentBaseCurrency>> for InstrumentBaseCurrency {
    open spec fn converted(&self) -> Result<Option<Seq<char>>, Seq<char>> {
        Ok(Some(self@))
    }

    fn into_field(self) -> (r: Result<Option<InstrumentBaseCurrency>, ConversionError>) {
        Ok(Some(self))
    }
}

/// Currency of a single-currency instrument such as a stock or a bond (ISO 4217).
///
/// The text of every value matches `^[A-Z]{3}$`: three upper-case letters.
#[derive(Debug, PartialEq, Eq, Hash, PartialOrd, Ord)]
pub struct InstrumentCurrency(String);

impl InstrumentCurrency {
    #[verifier::type_invariant]
    spec fn well_formed(self) -> bool {
        is_currency_code(self.0@)
    }
}

impl View for InstrumentCurrency {
    type V = Seq<char>;

    closed spec fn view(&self) -> Seq<char> {
        self.0@
    }
}

impl DeepView for InstrumentCurrency {
    type V = Seq<char>;

    open spec fn deep_view(&self) -> Seq<char> {
        self@
    }
}

impl Clone for InstrumentCurrency {
    fn clone(&self) -> (r: Self)
        ensures
            r@ == self@,
    {
        proof {
            use_type_invariant(self);
        }
        InstrumentCurrency(self.0.clone())
    }
}

impl InstrumentCurrency {
    /// Validates `value`: it is accepted exactly when it matches `^[A-Z]{3}$`: three upper-case letters.
    pub fn from_str(value: &str) -> (r: Result<InstrumentCurrency, ConversionError>)
        ensures
            r is Ok <==> is_currency_code(value@),
            r matches Ok(v) ==> v@ == value@,
            r matches Err(e) ==> e@ == currency_mismatch(),
    {
        if !pattern_found("^[A-Z]{3}$", value) {
            return Err("doesn't match pattern \"^[A-Z]{3}$\"".to_owned());
        }
        Ok(InstrumentCurrency(value.to_owned()))
    }

    /// The text of this value.
    pub fn as_str(&self) -> (r: &str)
        ensures
            r@ == self@,
            is_currency_code(r@),
    {
        proof {
            use_type_invariant(self);
        }
        self.0.as_str()
    }

    /// The text of this value, as an owned string.
    pub fn into_string(self) -> (r: String)
        ensures
            r@ == self@,
            is_currency_code(r@),
    {
        proof {
            use_type_invariant(&self);
        }
        self.0
    }
}

impl std::str::FromStr for InstrumentCurrency {
    type Err = ConversionError;

    fn from_str(value: &str) -> (r: Result<InstrumentCurrency, ConversionError>)
        ensures
            r is Ok <==> is_currency_code(value@),
            r matches Ok(v) ==> v@ == value@,
            r matches Err(e) ==> e@ == currency_mismatch(),
    {
        InstrumentCurrency::from_str(value)
    }
}

impl FieldInput<InstrumentCurrency> for InstrumentCurrency {
    open spec fn converted(&self) -> Result<Seq<char>, Seq<char>> {
        Ok(self@)
    }

    fn into_field(self) -> (r: Result<InstrumentCurrency, ConversionError>) {
        Ok(self)
    }
}

impl<'a> FieldInput<InstrumentCurrency> for &'a str {
    open spec fn converted(&self) -> Result<Seq<char>, Seq<char>> {
        if is_currency_code(self@) {
            Ok(self@)
        } else {
            Err(currency_mismatch())
        }
    }

    fn into_field(self) -> (r: Result<InstrumentCurrency, ConversionError>) {
        InstrumentCurrency::from_str(self)
    }
}

impl<'a> FieldInput<InstrumentCurrency> for &'a String {
    open spec fn converted(&self) -> Result<Seq<char>, Seq<char>> {
        if is_currency_code(self@) {
            Ok(self@)
        } else {
            Err(currency_mismatch())
        }
    }

    fn into_field(self) -> (r: Result<InstrumentCurrency, ConversionError>) {
        InstrumentCurrency::from_str(self.as_str())
    }
}

impl FieldInput<InstrumentCurrency> for String {
    open spec fn converted(&self) -> Result<Seq<char>, Seq<char>> {
        if is_currency_code(self@) {
            Ok(self@)
        } else {
            Err(currency_mismatch())
        }
    }

    fn into_field(self) -> (r: Result<InstrumentCurrency, ConversionError>) {
        InstrumentCurrency::from_str(self.as_str())
    }
}

impl<'a> FieldInput<InstrumentCurrency> for &'a InstrumentCurrency {
    open spec fn converted(&self) -> Result<Seq<char>, Seq<char>> {
        Ok(self@)
    }

    fn into_field(self) -> (r: Result<InstrumentCurrency, ConversionError>) {
        Ok(self.clone())
    }
}

impl<'a> TryFrom<&'a str> for InstrumentCurrency {
    type Error = ConversionError;

    fn try_from(value: &'a str) -> (r: Result<InstrumentCurrency, ConversionError>)
        ensures
            r is Ok <==> is_currency_code(value@),
            r matches Ok(v) ==> v@ == value@,
            r matches Err(e) ==> e@ == currency_mismatch(),
    {
        InstrumentCurrency::from_str(value)
    }
}

/// The contract of this conversion is the one on its `try_from` above;
/// nothing is claimed through the generic specification.
impl<'a> vstd::std_specs::convert::TryFromSpecImpl<&'a str> for InstrumentCurrency {
    open spec fn obeys_try_from_spec() -> bool {
        false
    }

    open spec fn try_from_spec(value: &'a str) -> Result<InstrumentCurrency, ConversionError> {
        arbitrary()
    }
}

impl<'a> TryFrom<&'a String> for InstrumentCurrency {
    type Error = ConversionError;

    fn try_from(value: &'a String) -> (r: Result<InstrumentCurrency, ConversionError>)
        ensures
            r is Ok <==> is_currency_code(value@),
            r matches Ok(v) ==> v@ == value@,
            r matches Err(e) ==> e@ == currency_mismatch(),
    {
        InstrumentCurrency::from_str(value.as_str())
    }
}

/// The contract of this conversion is the one on its `try_from` above;
/// nothing is claimed through the generic specification.
impl<'a> vstd::std_specs::convert::TryFromSpecImpl<&'a String> for InstrumentCurrency {
    open spec fn obeys_try_from_spec() -> bool {
        false
    }

    open spec fn try_from_spec(value: &'a String) -> Result<InstrumentCurrency, ConversionError> {
        arbitrary()
    }
}

impl TryFrom<String> for InstrumentCurrency {
    type Error = ConversionError;

    fn try_from(value: String) -> (r: Result<InstrumentCurrency, ConversionError>)
        ensures
            r is Ok <==> is_currency_code(value@),
            r matches Ok(v) ==> v@ == value@,
            r matches Err(e) ==> e@ == currency_mismatch(),
    {
        InstrumentCurrency::from_str(value.as_str())
    }
}

/// The contract of this conversion is the one on its `try_from` above;
/// nothing is claimed through the generic specification.
impl vstd::std_specs::convert::TryFromSpecImpl<String> for InstrumentCurrency {
    open spec fn obeys_try_from_spec() -> bool {
        false
    }

    open spec fn try_from_spec(value: String) -> Result<InstrumentCurrency, ConversionError> {
        arbitrary()
    }
}

/// What a builder setter makes of each kind of input for a `InstrumentCurrency` field:
/// a value (or a reference to one) stands for itself, and text of any of the
/// three string kinds is read exactly as `from_str` reads it: accepted, with
/// its own text, when it matches `^[A-Z]{3}$`: three upper-case letters, refused with `from_str`'s message otherwise.
pub proof fn lemma_instrument_currency_inputs(v: InstrumentCurrency, o: Option<InstrumentCurrency>, t: &str, w: &String, u: String)
    ensures
        <InstrumentCurrency as FieldInput<InstrumentCurrency>>::converted(&v) == Ok::<Seq<char>, Seq<char>>(v@),
        <&InstrumentCurrency as FieldInput<InstrumentCurrency>>::converted(&&v) == Ok::<Seq<char>, Seq<char>>(v@),
        <&str as FieldInput<InstrumentCurrency>>::converted(&t) is Ok <==> is_currency_code(t@),
        <&str as FieldInput<InstrumentCurrency>>::converted(&t) matches Ok(x) ==> x == t@,
        <&str as FieldInput<InstrumentCurrency>>::converted(&t) matches Err(e) ==> e == currency_mismatch(),
        <&String as FieldInput<InstrumentCurrency>>::converted(&w) is Ok <==> is_currency_code(w@),
        <&String as FieldInput<InstrumentCurrency>>::converted(&w) matches Ok(x) ==> x == w@,
        <&String as FieldInput<InstrumentCurrency>>::converted(&w) matches Err(e) ==> e == currency_mismatch(),
        <String as FieldInput<InstrumentCurrency>>::converted(&u) is Ok <==> is_currency_code(u@),
        <String as FieldInput<InstrumentCurrency>>::converted(&u) matches Ok(x) ==> x == u@,
        <String as FieldInput<InstrumentCurrency>>::converted(&u) matches Err(e) ==> e == currency_mismatch(),
        <Option<InstrumentCurrency> as FieldInput<Option<InstrumentCurrency>>>::converted(&o)
            == Ok::<Option<Seq<char>>, Seq<char>>(o.deep_view()),
        <InstrumentCurrency as FieldInput<Option<InstrumentCurrency>>>::converted(&v)
            == Ok::<Option<Seq<char>>, Seq<char>>(Some(v@)),
{
}

impl FieldInput<Option<InstrumentCurrency>> for Option<InstrumentCurrency> {
    open spec fn converted(&self) -> Result<Option<Seq<char>>, Seq<char>> {
        Ok(self.deep_view())
    }

    fn into_field(self) -> (r: Result<Option<InstrumentCurrency>, ConversionError>) {
        Ok(self)
    }
}

impl FieldInput<Option<InstrumentCurrency>> for InstrumentCurrency {
    open spec fn converted(&self) -> Result<Option<Seq<char>>, Seq<char>> {
        Ok(Some(self@))
    }

    fn into_field(self) -> (r: Result<Option<InstrumentCurrency>, ConversionError>) {
        Ok(Some(self))
    }
}

/// Listing exchange (ISO 10383 market identifier code).
///
/// The text of every value matches `^[A-Z]{4}$`: four upper-case letters.
#[derive(Debug, PartialEq, Eq, Hash, PartialOrd, Ord)]
pub struct InstrumentExchange(String);

impl InstrumentExchange {
    #[verifier::type_invariant]
    spec fn well_formed(self) -> bool {
        is_market_identifier(self.0@)
    }
}

impl View for InstrumentExchange {
    type V = Seq<char>;

    closed spec fn view(&self) -> Seq<char> {
        self.0@
    }
}

impl DeepView for InstrumentExchange {
    type V = Seq<char>;

    open spec fn deep_view(&self) -> Seq<char> {
        self@
    }
}

impl Clone for InstrumentExchange {
    fn clone(&self) -> (r: Self)
        ensures
            r@ == self@,
    {
        proof {
            use_type_invariant(self);
        }
        InstrumentExchange(self.0.clone())
    }
}

impl InstrumentExchange {
    /// Validates `value`: it is accepted exactly when it matches `^[A-Z]{4}$`: four upper-case letters.
    pub fn from_str(value: &str) -> (r: Result<InstrumentExchange, ConversionError>)
        ensures
            r is Ok <==> is_market_identifier(value@),
            r matches Ok(v) ==> v@ == value@,
            r matches Err(e) ==> e@ == market_identifier_mismatch(),
    {
        if !pattern_found("^[A-Z]{4}$", value) {
            return Err("doesn't match pattern \"^[A-Z]{4}$\"".to_owned());
        }
        Ok(InstrumentExchange(value.to_owned()))
    }

    /// The text of this value.
    pub fn as_str(&self) -> (r: &str)
        ensures
            r@ == self@,
            is_market_identifier(r@),
    {
        proof {
            use_type_invariant(self);
        }
        self.0.as_str()
    }

    /// The text of this value, as an owned string.
    pub fn into_string(self) -> (r: String)
        ensures
            r@ == self@,
            is_market_identifier(r@),
    {
        proof {
            use_type_invariant(&self);
        }
        self.0
    }
}

impl std::str::FromStr for InstrumentExchange {
    type Err = ConversionError;

    fn from_str(value: &str) -> (r: Result<InstrumentExchange, ConversionError>)
        ensures
            r is Ok <==> is_market_identifier(value@),
            r matches Ok(v) ==> v@ == value@,
            r matches Err(e) ==> e@ == market_identifier_mismatch(),
    {
        InstrumentExchange::from_str(value)
    }
}

impl FieldInput<InstrumentExchange> for InstrumentExchange {
    open spec fn converted(&self) -> Result<Seq<char>, Seq<char>> {
        Ok(self@)
    }

    fn into_field(self) -> (r: Result<InstrumentExchange, ConversionError>) {
        Ok(self)
    }
}

impl<'a> FieldInput<InstrumentExchange> for &'a str {
    open spec fn converted(&self) -> Result<Seq<char>, Seq<char>> {
        if is_market_identifier(self@) {
            Ok(self@)
        } else {
            Err(market_identifier_mismatch())
        }
    }

    fn into_field(self) -> (r: Result<InstrumentExchange, ConversionError>) {
        InstrumentExchange::from_str(self)
    }
}

impl<'a> FieldInput<InstrumentExchange> for &'a String {
    open spec fn converted(&self) -> Result<Seq<char>, Seq<char>> {
        if is_market_identifier(self@) {
            Ok(self@)
        } else {
            Err(market_identifier_mismatch())
        }
    }

    fn into_field(self) -> (r: Result<InstrumentExchange, ConversionError>) {
        InstrumentExchange::from_str(self.as_str())
    }
}

impl FieldInput<InstrumentExchange> for String {
    open spec fn converted(&self) -> Result<Seq<char>, Seq<char>> {
        if is_market_identifier(self@) {
            Ok(self@)
        } else {
            Err(market_identifier_mismatch())
        }
    }

    fn into_field(self) -> (r: Result<InstrumentExchange, ConversionError>) {
        InstrumentExchange::from_str(self.as_str())
    }
}

impl<'a> FieldInput<InstrumentExchange> for &'a InstrumentExchange {
    open spec fn converted(&self) -> Result<Seq<char>, Seq<char>> {
        Ok(self@)
    }

    fn into_field(self) -> (r: Result<InstrumentExchange, ConversionError>) {
        Ok(self.clone())
    }
}

impl<'a> TryFrom<&'a str> for InstrumentExchange {
    type Error = ConversionError;

    fn try_from(value: &'a str) -> (r: Result<InstrumentExchange, ConversionError>)
        ensures
            r is Ok <==> is_market_identifier(value@),
            r matches Ok(v) ==> v@ == value@,
            r matches Err(e) ==> e@ == market_identifier_mismatch(),
    {
        InstrumentExchange::from_str(value)
    }
}

/// The contract of this conversion is the one on its `try_from` above;
/// nothing is claimed through the generic specification.
impl<'a> vstd::std_specs::convert::TryFromSpecImpl<&'a str> for InstrumentExchange {
    open spec fn obeys_try_from_spec() -> bool {
        false
    }

    open spec fn try_from_spec(value: &'a str) -> Result<InstrumentExchange, ConversionError> {
        arbitrary()
    }
}

impl<'a> TryFrom<&'a String> for InstrumentExchange {
    type Error = ConversionError;

    fn try_from(value: &'a String) -> (r: Result<InstrumentExchange, ConversionError>)
        ensures
            r is Ok <==> is_market_identifier(value@),
            r matches Ok(v) ==> v@ == value@,
            r matches Err(e) ==> e@ == market_identifier_mismatch(),
    {
        InstrumentExchange::from_str(value.as_str())
    }
}

/// The contract of this conversion is the one on its `try_from` above;
/// nothing is claimed through the generic specification.
impl<'a> vstd::std_specs::convert::TryFromSpecImpl<&'a String> for InstrumentExchange {
    open spec fn obeys_try_from_spec() -> bool {
        false
    }

    open spec fn try_from_spec(value: &'a String) -> Result<InstrumentExchange, ConversionError> {
        arbitrary()
    }
}

impl TryFrom<String> for InstrumentExchange {
    type Error = ConversionError;

    fn try_from(value: String) -> (r: Result<InstrumentExchange, ConversionError>)
        ensures
            r is Ok <==> is_market_identifier(value@),
            r matches Ok(v) ==> v@ == value@,
            r matches Err(e) ==> e@ == market_identifier_mismatch(),
    {
        InstrumentExchange::from_str(value.as_str())
    }
}

/// The contract of this conversion is the one on its `try_from` above;
/// nothing is claimed through the generic specification.
impl vstd::std_specs::convert::TryFromSpecImpl<String> for InstrumentExchange {
    open spec fn obeys_try_from_spec() -> bool {
        false
    }

    open spec fn try_from_spec(value: String) -> Result<InstrumentExchange, ConversionError> {
        arbitrary()
    }
}

/// What a builder setter makes of each kind of input for a `InstrumentExchange` field:
/// a value (or a reference to one) stands for itself, and text of any of the
/// three string kinds is read exactly as `from_str` reads it: accepted, with
/// its own text, when it matches `^[A-Z]{4}$`: four upper-case letters, refused with `from_str`'s message otherwise.
pub proof fn lemma_instrument_exchange_inputs(v: InstrumentExchange, o: Option<InstrumentExchange>, t: &str, w: &String, u: String)
    ensures
        <InstrumentExchange as FieldInput<InstrumentExchange>>::converted(&v) == Ok::<Seq<char>, Seq<char>>(v@),
        <&InstrumentExchange as FieldInput<InstrumentExchange>>::converted(&&v) == Ok::<Seq<char>, Seq<char>>(v@),
        <&str as FieldInput<InstrumentExchange>>::converted(&t) is Ok <==> is_market_identifier(t@),
        <&str as FieldInput<InstrumentExchange>>::converted(&t) matches Ok(x) ==> x == t@,
        <&str as FieldInput<InstrumentExchange>>::converted(&t) matches Err(e) ==> e == market_identifier_mismatch(),
        <&String as FieldInput<InstrumentExchange>>::converted(&w) is Ok <==> is_market_identifier(w@),
        <&String as FieldInput<InstrumentExchange>>::converted(&w) matches Ok(x) ==> x == w@,
        <&String as FieldInput<InstrumentExchange>>::converted(&w) matches Err(e) ==> e == market_identifier_mismatch(),
        <String as FieldInput<InstrumentExchange>>::converted(&u) is Ok <==> is_market_identifier(u@),
        <String as FieldInput<InstrumentExchange>>::converted(&u) matches Ok(x) ==> x == u@,
        <String as FieldInput<InstrumentExchange>>::converted(&u) matches Err(e) ==> e == market_identifier_mismatch(),
        <Option<InstrumentExchange> as FieldInput<Option<InstrumentExchange>>>::converted(&o)
            == Ok::<Option<Seq<char>>, Seq<char>>(o.deep_view()),
        <InstrumentExchange as FieldInput<Option<InstrumentExchange>>>::converted(&v)
            == Ok::<Option<Seq<char>>, Seq<char>>(Some(v@)),
{
}

impl FieldInput<Option<InstrumentExchange>> for Option<InstrumentExchange> {
    open spec fn converted(&self) -> Result<Option<Seq<char>>, Seq<char>> {
        Ok(self.deep_view())
    }

    fn into_field(self) -> (r: Result<Option<InstrumentExchange>, ConversionError>) {
        Ok(self)
    }
}

impl FieldInput<Option<InstrumentExchange>> for InstrumentExchange {
    open spec fn converted(&self) -> Result<Option<Seq<char>>, Seq<char>> {
        Ok(Some(self@))
    }

    fn into_field(self) -> (r: Result<Option<InstrumentExchange>, ConversionError>) {
        Ok(Some(self))
    }
}

/// Quote currency of a currency pair (ISO 4217).
///
/// The text of every value matches `^[A-Z]{3}$`: three upper-case letters.
#[derive(Debug, PartialEq, Eq, Hash, PartialOrd, Ord)]
pub struct InstrumentQuoteCurrency(String);

impl InstrumentQuoteCurrency {
    #[verifier::type_invariant]
    spec fn well_formed(self) -> bool {
        is_currency_code(self.0@)
    }
}

impl View for InstrumentQuoteCurrency {
    type V = Seq<char>;

    closed spec fn view(&self) -> Seq<char> {
        self.0@
    }
}

impl DeepView for InstrumentQuoteCurrency {
    type V = Seq<char>;

    open spec fn deep_view(&self) -> Seq<char> {
        self@
    }
}

impl Clone for InstrumentQuoteCurrency {
    fn clone(&self) -> (r: Self)
        ensures
            r@ == self@,
    {
        proof {
            use_type_invariant(self);
        }
        InstrumentQuoteCurrency(self.0.clone())
    }
}

impl InstrumentQuoteCurrency {
    /// Validates `value`: it is accepted exactly when it matches `^[A-Z]{3}$`: three upper-case letters.
    pub fn from_str(value: &str) -> (r: Result<InstrumentQuoteCurrency, ConversionError>)
        ensures
            r is Ok <==> is_currency_code(value@),
            r matches Ok(v) ==> v@ == value@,
            r matches Err(e) ==> e@ == currency_mismatch(),
    {
        if !pattern_found("^[A-Z]{3}$", value) {
            return Err("doesn't match pattern \"^[A-Z]{3}$\"".to_owned());
        }
        Ok(InstrumentQuoteCurrency(value.to_owned()))
    }

    /// The text of this value.
    pub fn as_str(&self) -> (r: &str)
        ensures
            r@ == self@,
            is_currency_code(r@),
    {
        proof {
            use_type_invariant(self);
        }
        self.0.as_str()
    }

    /// The text of this value, as an owned string.
    pub fn into_string(self) -> (r: String)
        ensures
            r@ == self@,
            is_currency_code(r@),
    {
        proof {
            use_type_invariant(&self);
        }
        self.0
    }
}

impl std::str::FromStr for InstrumentQuoteCurrency {
    type Err = ConversionError;

    fn from_str(value: &str) -> (r: Result<InstrumentQuoteCurrency, ConversionError>)
        ensures
            r is Ok <==> is_currency_code(value@),
            r matches Ok(v) ==> v@ == value@,
            r matches Err(e) ==> e@ == currency_mismatch(),
    {
        InstrumentQuoteCurrency::from_str(value)
    }
}

impl FieldInput<InstrumentQuoteCurrency> for InstrumentQuoteCurrency {
    open spec fn converted(&self) -> Result<Seq<char>, Seq<char>> {
        Ok(self@)
    }

    fn into_field(self) -> (r: Result<InstrumentQuoteCurrency, ConversionError>) {
        Ok(self)
    }
}

impl<'a> FieldInput<InstrumentQuoteCurrency> for &'a str {
    open spec fn converted(&self) -> Result<Seq<char>, Seq<char>> {
        if is_currency_code(self@) {
            Ok(self@)
        } else {
            Err(currency_mismatch())
        }
    }

    fn into_field(self) -> (r: Result<InstrumentQuoteCurrency, ConversionError>) {
        InstrumentQuoteCurrency::from_str(self)
    }
}

impl<'a> FieldInput<InstrumentQuoteCurrency> for &'a String {
    open spec fn converted(&self) -> Result<Seq<char>, Seq<char>> {
        if is_currency_code(self@) {
            Ok(self@)
        } else {
            Err(currency_mismatch())
        }
    }

    fn into_field(self) -> (r: Result<InstrumentQuoteCurrency, ConversionError>) {
        InstrumentQuoteCurrency::from_str(self.as_str())
    }
}

impl FieldInput<InstrumentQuoteCurrency> for String {
    open spec fn converted(&self) -> Result<Seq<char>, Seq<char>> {
        if is_currency_code(self@) {
            Ok(self@)
        } else {
            Err(currency_mismatch())
        }
    }

    fn into_field(self) -> (r: Result<InstrumentQuoteCurrency, ConversionError>) {
        InstrumentQuoteCurrency::from_str(self.as_str())
    }
}

impl<'a> FieldInput<InstrumentQuoteCurrency> for &'a InstrumentQuoteCurrency {
    open spec fn converted(&self) -> Result<Seq<char>, Seq<char>> {
        Ok(self@)
    }

    fn into_field(self) -> (r: Result<InstrumentQuoteCurrency, ConversionError>) {
        Ok(self.clone())
    }
}

impl<'a> TryFrom<&'a str> for InstrumentQuoteCurrency {
    type Error = ConversionError;

    fn try_from(value: &'a str) -> (r: Result<InstrumentQuoteCurrency, ConversionError>)
        ensures
            r is Ok <==> is_currency_code(value@),
            r matches Ok(v) ==> v@ == value@,
            r matches Err(e) ==> e@ == currency_mismatch(),
    {
        InstrumentQuoteCurrency::from_str(value)
    }
}

/// The contract of this conversion is the one on its `try_from` above;
/// nothing is claimed through the generic specification.
impl<'a> vstd::std_specs::convert::TryFromSpecImpl<&'a str> for InstrumentQuoteCurrency {
    open spec fn obeys_try_from_spec() -> bool {
        false
    }

    open spec fn try_from_spec(value: &'a str) -> Result<InstrumentQuoteCurrency, ConversionError> {
        arbitrary()
    }
}

impl<'a> TryFrom<&'a String> for InstrumentQuoteCurrency {
    type Error = ConversionError;

    fn try_from(value: &'a String) -> (r: Result<InstrumentQuoteCurrency, ConversionError>)
        ensures
            r is Ok <==> is_currency_code(value@),
            r matches Ok(v) ==> v@ == value@,
            r matches Err(e) ==> e@ == currency_mismatch(),
    {
        InstrumentQuoteCurrency::from_str(value.as_str())
    }
}

/// The contract of this conversion is the one on its `try_from` above;
/// nothing is claimed through the generic specification.
impl<'a> vstd::std_specs::convert::TryFromSpecImpl<&'a String> for InstrumentQuoteCurrency {
    open spec fn obeys_try_from_spec() -> bool {
        false
    }

    open spec fn try_from_spec(value: &'a String) -> Result<InstrumentQuoteCurrency, ConversionError> {
        arbitrary()
    }
}

impl TryFrom<String> for InstrumentQuoteCurrency {
    type Error = ConversionError;

    fn try_from(value: String) -> (r: Result<InstrumentQuoteCurrency, ConversionError>)
        ensures
            r is Ok <==> is_currency_code(value@),
            r matches Ok(v) ==> v@ == value@,
            r matches Err(e) ==> e@ == currency_mismatch(),
    {
        InstrumentQuoteCurrency::from_str(value.as_str())
    }
}

/// The contract of this conversion is the one on its `try_from` above;
/// nothing is claimed through the generic specification.
impl vstd::std_specs::convert::TryFromSpecImpl<String> for InstrumentQuoteCurrency {
    open spec fn obeys_try_from_spec() -> bool {
        false
    }

    open spec fn try_from_spec(value: String) -> Result<InstrumentQuoteCurrency, ConversionError> {
        arbitrary()
    }
}

/// What a builder setter makes of each kind of input for a `InstrumentQuoteCurrency` field:
/// a value (or a reference to one) stands for itself, and text of any of the
/// three string kinds is read exactly as `from_str` reads it: accepted, with
/// its own text, when it matches `^[A-Z]{3}$`: three upper-case letters, refused with `from_str`'s message otherwise.
pub proof fn lemma_instrument_quote_currency_inputs(v: InstrumentQuoteCurrency, o: Option<InstrumentQuoteCurrency>, t: &str, w: &String, u: String)
    ensures
        <InstrumentQuoteCurrency as FieldInput<InstrumentQuoteCurrency>>::converted(&v) == Ok::<Seq<char>, Seq<char>>(v@),
        <&InstrumentQuoteCurrency as FieldInput<InstrumentQuoteCurrency>>::converted(&&v) == Ok::<Seq<char>, Seq<char>>(v@),
        <&str as FieldInput<InstrumentQuoteCurrency>>::converted(&t) is Ok <==> is_currency_code(t@),
        <&str as FieldInput<InstrumentQuoteCurrency>>::converted(&t) matches Ok(x) ==> x == t@,
        <&str as FieldInput<InstrumentQuoteCurrency>>::converted(&t) matches Err(e) ==> e == currency_mismatch(),
        <&String as FieldInput<InstrumentQuoteCurrency>>::converted(&w) is Ok <==> is_currency_code(w@),
        <&String as FieldInput<InstrumentQuoteCurrency>>::converted(&w) matches Ok(x) ==> x == w@,
        <&String as FieldInput<InstrumentQuoteCurrency>>::converted(&w) matches Err(e) ==> e == currency_mismatch(),
        <String as FieldInput<InstrumentQuoteCurrency>>::converted(&u) is Ok <==> is_currency_code(u@),
        <String as FieldInput<InstrumentQuoteCurrency>>::converted(&u) matches Ok(x) ==> x == u@,
        <String as FieldInput<InstrumentQuoteCurrency>>::converted(&u) matches Err(e) ==> e == currency_mismatch(),
        <Option<InstrumentQuoteCurrency> as FieldInput<Option<InstrumentQuoteCurrency>>>::converted(&o)
            == Ok::<Option<Seq<char>>, Seq<char>>(o.deep_view()),
        <InstrumentQuoteCurrency as FieldInput<Option<InstrumentQuoteCurrency>>>::converted(&v)
            == Ok::<Option<Seq<char>>, Seq<char>>(Some(v@)),
{
}

impl FieldInput<Option<InstrumentQuoteCurrency>> for Option<InstrumentQuoteCurrency> {
    open spec fn converted(&self) -> Result<Option<Seq<char>>, Seq<char>> {
        Ok(self.deep_view())
    }

    fn into_field(self) -> (r: Result<Option<InstrumentQuoteCurrency>, ConversionError>) {
        Ok(self)
    }
}

impl FieldInput<Option<InstrumentQuoteCurrency>> for InstrumentQuoteCurrency {
    open spec fn converted(&self) -> Result<Option<Seq<char>>, Seq<char>> {
        Ok(Some(self@))
    }

    fn into_field(self) -> (r: Result<Option<InstrumentQuoteCurrency>, ConversionError>) {
        Ok(Some(self))
    }
}

/// Instrument identifier.
///
/// The text of every value has at least one character.
#[derive(Debug, PartialEq, Eq, Hash, PartialOrd, Ord)]
pub struct InstrumentSymbol(String);

impl InstrumentSymbol {
    #[verifier::type_invariant]
    spec fn well_formed(self) -> bool {
        is_symbol(self.0@)
    }
}

impl View for InstrumentSymbol {
    type V = Seq<char>;

    closed spec fn view(&self) -> Seq<char> {
        self.0@
    }
}

impl DeepView for InstrumentSymbol {
    type V = Seq<char>;

    open spec fn deep_view(&self) -> Seq<char> {
        self@
    }
}

impl Clone for InstrumentSymbol {
    fn clone(&self) -> (r: Self)
        ensures
            r@ == self@,
    {
        proof {
            use_type_invariant(self);
        }
        InstrumentSymbol(self.0.clone())
    }
}

impl InstrumentSymbol {
    /// Validates `value`: it is accepted exactly when it has at least one character.
    pub fn from_str(value: &str) -> (r: Result<InstrumentSymbol, ConversionError>)
        ensures
            r is Ok <==> is_symbol(value@),
            r matches Ok(v) ==> v@ == value@,
            r matches Err(e) ==> e@ == symbol_too_short(),
    {
        if value.unicode_len() < 1 {
            return Err("shorter than 1 characters".to_owned());
        }
        Ok(InstrumentSymbol(value.to_owned()))
    }

    /// The text of this value.
    pub fn as_str(&self) -> (r: &str)
        ensures
            r@ == self@,
            is_symbol(r@),
    {
        proof {
            use_type_invariant(self);
        }
        self.0.as_str()
    }

    /// The text of this value, as an owned string.
    pub fn into_string(self) -> (r: String)
        ensures
            r@ == self@,
            is_symbol(r@),
    {
        proof {
            use_type_invariant(&self);
        }
        self.0
    }
}

impl std::str::FromStr for InstrumentSymbol {
    type Err = ConversionError;

    fn from_str(value: &str) -> (r: Result<InstrumentSymbol, ConversionError>)
        ensures
            r is Ok <==> is_symbol(value@),
            r matches Ok(v) ==> v@ == value@,
            r matches Err(e) ==> e@ == symbol_too_short(),
    {
        InstrumentSymbol::from_str(value)
    }
}

impl FieldInput<InstrumentSymbol> for InstrumentSymbol {
    open spec fn converted(&self) -> Result<Seq<char>, Seq<char>> {
        Ok(self@)
    }

    fn into_field(self) -> (r: Result<InstrumentSymbol, ConversionError>) {
        Ok(self)
    }
}

impl<'a> FieldInput<InstrumentSymbol> for &'a str {
    open spec fn converted(&self) -> Result<Seq<char>, Seq<char>> {
        if is_symbol(self@) {
            Ok(self@)
        } else {
            Err(symbol_too_short())
        }
    }

    fn into_field(self) -> (r: Result<InstrumentSymbol, ConversionError>) {
        InstrumentSymbol::from_str(self)
    }
}

impl<'a> FieldInput<InstrumentSymbol> for &'a String {
    open spec fn converted(&self) -> Result<Seq<char>, Seq<char>> {
        if is_symbol(self@) {
            Ok(self@)
        } else {
            Err(symbol_too_short())
        }
    }

    fn into_field(self) -> (r: Result<InstrumentSymbol, ConversionError>) {
        InstrumentSymbol::from_str(self.as_str())
    }
}

impl FieldInput<InstrumentSymbol> for String {
    open spec fn converted(&self) -> Result<Seq<char>, Seq<char>> {
        if is_symbol(self@) {
            Ok(self@)
        } else {
            Err(symbol_too_short())
        }
    }

    fn into_field(self) -> (r: Result<InstrumentSymbol, ConversionError>) {
        InstrumentSymbol::from_str(self.as_str())
    }
}

impl<'a> FieldInput<InstrumentSymbol> for &'a InstrumentSymbol {
    open spec fn converted(&self) -> Result<Seq<char>, Seq<char>> {
        Ok(self@)
    }

    fn into_field(self) -> (r: Result<InstrumentSymbol, ConversionError>) {
        Ok(self.clone())
    }
}

impl<'a> TryFrom<&'a str> for InstrumentSymbol {
    type Error = ConversionError;

    fn try_from(value: &'a str) -> (r: Result<InstrumentSymbol, ConversionError>)
        ensures
            r is Ok <==> is_symbol(value@),
            r matches Ok(v) ==> v@ == value@,
            r matches Err(e) ==> e@ == symbol_too_short(),
    {
        InstrumentSymbol::from_str(value)
    }
}

/// The contract of this conversion is the one on its `try_from` above;
/// nothing is claimed through the generic specification.
impl<'a> vstd::std_specs::convert::TryFromSpecImpl<&'a str> for InstrumentSymbol {
    open spec fn obeys_try_from_spec() -> bool {
        false
    }

    open spec fn try_from_spec(value: &'a str) -> Result<InstrumentSymbol, ConversionError> {
        arbitrary()
    }
}

impl<'a> TryFrom<&'a String> for InstrumentSymbol {
    type Error = ConversionError;

    fn try_from(value: &'a String) -> (r: Result<InstrumentSymbol, ConversionError>)
        ensures
            r is Ok <==> is_symbol(value@),
            r matches Ok(v) ==> v@ == value@,
            r matches Err(e) ==> e@ == symbol_too_short(),
    {
        InstrumentSymbol::from_str(value.as_str())
    }
}

/// The contract of this conversion is the one on its `try_from` above;
/// nothing is claimed through the generic specification.
impl<'a> vstd::std_specs::convert::TryFromSpecImpl<&'a String> for InstrumentSymbol {
    open spec fn obeys_try_from_spec() -> bool {
        false
    }

    open spec fn try_from_spec(value: &'a String) -> Result<InstrumentSymbol, ConversionError> {
        arbitrary()
    }
}

impl TryFrom<String> for InstrumentSymbol {
    type Error = ConversionError;

    fn try_from(value: String) -> (r: Result<InstrumentSymbol, ConversionError>)
        ensures
            r is Ok <==> is_symbol(value@),
            r matches Ok(v) ==> v@ == value@,
            r matches Err(e) ==> e@ == symbol_too_short(),
    {
        InstrumentSymbol::from_str(value.as_str())
    }
}

/// The contract of this conversion is the one on its `try_from` above;
/// nothing is claimed through the generic specification.
impl vstd::std_specs::convert::TryFromSpecImpl<String> for InstrumentSymbol {
    open spec fn obeys_try_from_spec() -> bool {
        false
    }

    open spec fn try_from_spec(value: String) -> Result<InstrumentSymbol, ConversionError> {
        arbitrary()
    }
}

/// What a builder setter makes of each kind of input for a `InstrumentSymbol` field:
/// a value (or a reference to one) stands for itself, and text of any of the
/// three string kinds is read exactly as `from_str` reads it: accepted, with
/// its own text, when it has at least one character, refused with `from_str`'s message otherwise.
pub proof fn lemma_instrument_symbol_inputs(v: InstrumentSymbol, o: Option<InstrumentSymbol>, t: &str, w: &String, u: String)
    ensures
        <InstrumentSymbol as FieldInput<InstrumentSymbol>>::converted(&v) == Ok::<Seq<char>, Seq<char>>(v@),
        <&InstrumentSymbol as FieldInput<InstrumentSymbol>>::converted(&&v) == Ok::<Seq<char>, Seq<char>>(v@),
        <&str as FieldInput<InstrumentSymbol>>::converted(&t) is Ok <==> is_symbol(t@),
        <&str as FieldInput<InstrumentSymbol>>::converted(&t) matches Ok(x) ==> x == t@,
        <&str as FieldInput<InstrumentSymbol>>::converted(&t) matches Err(e) ==> e == symbol_too_short(),
        <&String as FieldInput<InstrumentSymbol>>::converted(&w) is Ok <==> is_symbol(w@),
        <&String as FieldInput<InstrumentSymbol>>::converted(&w) matches Ok(x) ==> x == w@,
        <&String as FieldInput<InstrumentSymbol>>::converted(&w) matches Err(e) ==> e == symbol_too_short(),
        <String as FieldInput<InstrumentSymbol>>::converted(&u) is Ok <==> is_symbol(u@),
        <String as FieldInput<InstrumentSymbol>>::converted(&u) matches Ok(x) ==> x == u@,
        <String as FieldInput<InstrumentSymbol>>::converted(&u) matches Err(e) ==> e == symbol_too_short(),
{
}

/// Identification of an instrument.
#[derive(Debug)]
pub struct Instrument {
    /// Asset class.
    pub asset_class: InstrumentAssetClass,
    /// Base currency, for currency pairs in FX and crypto assets.
    pub base_currency: Option<InstrumentBaseCurrency>,
    /// Currency of a single-currency instrument such as a stock or a bond.
    pub currency: Option<InstrumentCurrency>,
    /// Listing exchange (ISO 10383 market identifier code).
    pub exchange: Option<InstrumentExchange>,
    /// Quote currency, for currency pairs in FX and crypto assets.
    pub quote_currency: Option<InstrumentQuoteCurrency>,
    /// Instrument identifier.
    pub symbol: InstrumentSymbol,
}

/// An `Instrument` over views: the asset class and the text of each other field.
pub struct InstrumentView {
    pub asset_class: InstrumentAssetClass,
    pub base_currency: Option<Seq<char>>,
    pub currency: Option<Seq<char>>,
    pub exchange: Option<Seq<char>>,
    pub quote_currency: Option<Seq<char>>,
    pub symbol: Seq<char>,
}

impl View for Instrument {
    type V = InstrumentView;

    open spec fn view(&self) -> InstrumentView {
        InstrumentView {
            asset_class: self.asset_class.deep_view(),
            base_currency: self.base_currency.deep_view(),
            currency: self.currency.deep_view(),
            exchange: self.exchange.deep_view(),
            quote_currency: self.quote_currency.deep_view(),
            symbol: self.symbol.deep_view(),
        }
    }
}

impl Clone for Instrument {
    fn clone(&self) -> (r: Self)
        ensures
            r@ == self@,
    {
        Instrument {
            asset_class: self.asset_class.clone(),
            base_currency: match &self.base_currency {
                Some(v) => Some(v.clone()),
                None => None,
            },
            currency: match &self.currency {
                Some(v) => Some(v.clone()),
                None => None,
            },
            exchange: match &self.exchange {
                Some(v) => Some(v.clone()),
                None => None,
            },
            quote_currency: match &self.quote_currency {
                Some(v) => Some(v.clone()),
                None => None,
            },
            symbol: self.symbol.clone(),
        }
    }
}

impl Instrument {
    /// A new builder: no asset class and no symbol yet, no optional field.
    pub fn builder() -> (r: builder::Instrument)
        ensures
            r@ == builder::InstrumentView::fresh(),
    {
        builder::Instrument::default()
    }
}

} // verus!
