//! Common type definitions of the market data schema.

mod common;
mod timestamp;

pub use crate::types::error;
pub use common::CommonTypeDefinitions;
pub use timestamp::Timestamp;

use vstd::prelude::*;

use crate::types::error::ConversionError;
use crate::types::field_input::FieldInput;
use crate::types::text::{calendar_date_mismatch, currency_mismatch, expiry_series_mismatch, is_calendar_date, is_currency_code, is_expiry_series, is_market_identifier, is_symbol, market_identifier_mismatch, pattern_found, str_eq, symbol_too_short};

verus! {

/// Asset class.
///
/// The schema names its values `equity`, `fund`, `bond`, `future`, `option`, `fx`, `crypto`, `cfd`.
#[derive(Clone, Copy, Debug, PartialEq, Eq, Structural, Hash, PartialOrd, Ord)]
pub enum AssetClass {
    Equity,
    Fund,
    Bond,
    Future,
    Option,
    Fx,
    Crypto,
    Cfd,
}

impl View for AssetClass {
    type V = AssetClass;

    open spec fn view(&self) -> AssetClass {
        *self
    }
}

impl DeepView for AssetClass {
    type V = AssetClass;

    open spec fn deep_view(&self) -> AssetClass {
        *self
    }
}

impl AssetClass {
    /// The schema's name of each value.
    pub open spec fn name(self) -> Seq<char> {
        match self {
            AssetClass::Equity => "equity"@,
            AssetClass::Fund => "fund"@,
            AssetClass::Bond => "bond"@,
            AssetClass::Future => "future"@,
            AssetClass::Option => "option"@,
            AssetClass::Fx => "fx"@,
            AssetClass::Crypto => "crypto"@,
            AssetClass::Cfd => "cfd"@,
        }
    }

    /// The value that the text `s` names, if any.
    pub open spec fn parse(s: Seq<char>) -> Option<AssetClass> {
        if s == "equity"@ {
            Some(AssetClass::Equity)
        } else if s == "fund"@ {
            Some(AssetClass::Fund)
        } else if s == "bond"@ {
            Some(AssetClass::Bond)
        } else if s == "future"@ {
            Some(AssetClass::Future)
        } else if s == "option"@ {
            Some(AssetClass::Option)
        } else if s == "fx"@ {
            Some(AssetClass::Fx)
        } else if s == "crypto"@ {
            Some(AssetClass::Crypto)
        } else if s == "cfd"@ {
            Some(AssetClass::Cfd)
        } else {
            None
        }
    }

    /// The schema's name of this value.
    pub fn as_str(&self) -> (r: &'static str)
        ensures
            r@ == self.name(),
    {
        match self {
            AssetClass::Equity => "equity",
            AssetClass::Fund => "fund",
            AssetClass::Bond => "bond",
            AssetClass::Future => "future",
            AssetClass::Option => "option",
            AssetClass::Fx => "fx",
            AssetClass::Crypto => "crypto",
            AssetClass::Cfd => "cfd",
        }
    }

    /// The schema's name of this value, as an owned string.
    pub fn to_string(&self) -> (r: String)
        ensures
            r@ == self.name(),
    {
        self.as_str().to_owned()
    }

    /// The value that `value` names; any other text is refused.
    pub fn from_str(value: &str) -> (r: Result<AssetClass, ConversionError>)
        ensures
            match r {
                Ok(v) => AssetClass::parse(value@) == Some(v),
                Err(e) => AssetClass::parse(value@) is None && e@ == "invalid value"@,
            },
    {
        if str_eq(value, "equity") {
            Ok(AssetClass::Equity)
        } else if str_eq(value, "fund") {
            Ok(AssetClass::Fund)
        } else if str_eq(value, "bond") {
            Ok(AssetClass::Bond)
        } else if str_eq(value, "future") {
            Ok(AssetClass::Future)
        } else if str_eq(value, "option") {
            Ok(AssetClass::Option)
        } else if str_eq(value, "fx") {
            Ok(AssetClass::Fx)
        } else if str_eq(value, "crypto") {
            Ok(AssetClass::Crypto)
        } else if str_eq(value, "cfd") {
            Ok(AssetClass::Cfd)
        } else {
            Err("invalid value".to_owned())
        }
    }
}

/// Each value is read back from its name, and text that is read as a value
/// is that value's name: `from_str` undoes `to_string`.
pub proof fn lemma_asset_class_names(v: AssetClass)
    ensures
        AssetClass::parse(v.name()) == Some(v),
        forall|s: Seq<char>| AssetClass::parse(s) == Some(v) ==> s == v.name(),
{
    reveal_strlit("equity");
    reveal_strlit("fund");
    reveal_strlit("bond");
    reveal_strlit("future");
    reveal_strlit("option");
    reveal_strlit("fx");
    reveal_strlit("crypto");
    reveal_strlit("cfd");
    assert("equity"@.len() == 6);
    assert("equity"@[0] == 'e');
    assert("fund"@.len() == 4);
    assert("fund"@[0] == 'f');
    assert("bond"@.len() == 4);
    assert("bond"@[0] == 'b');
    assert("future"@.len() == 6);
    assert("future"@[0] == 'f');
    assert("option"@.len() == 6);
    assert("option"@[0] == 'o');
    assert("fx"@.len() == 2);
    assert("crypto"@.len() == 6);
    assert("crypto"@[0] == 'c');
    assert("cfd"@.len() == 3);
}

impl std::str::FromStr for AssetClass {
    type Err = ConversionError;

    fn from_str(value: &str) -> (r: Result<AssetClass, ConversionError>)
        ensures
            match r {
                Ok(v) => AssetClass::parse(value@) == Some(v),
                Err(e) => AssetClass::parse(value@) is None && e@ == "invalid value"@,
            },
    {
        AssetClass::from_str(value)
    }
}

impl FieldInput<AssetClass> for AssetClass {
    open spec fn converted(&self) -> Result<AssetClass, Seq<char>> {
        Ok(*self)
    }

    fn into_field(self) -> (r: Result<AssetClass, ConversionError>) {
        Ok(self)
    }
}

impl<'a> FieldInput<AssetClass> for &'a str {
    open spec fn converted(&self) -> Result<AssetClass, Seq<char>> {
        match AssetClass::parse(self@) {
            Some(v) => Ok(v),
            None => Err("invalid value"@),
        }
    }

    fn into_field(self) -> (r: Result<AssetClass, ConversionError>) {
        AssetClass::from_str(self)
    }
}

impl<'a> FieldInput<AssetClass> for &'a String {
    open spec fn converted(&self) -> Result<AssetClass, Seq<char>> {
        match AssetClass::parse(self@) {
            Some(v) => Ok(v),
            None => Err("invalid value"@),
        }
    }

    fn into_field(self) -> (r: Result<AssetClass, ConversionError>) {
        AssetClass::from_str(self.as_str())
    }
}

impl FieldInput<AssetClass> for String {
    open spec fn converted(&self) -> Result<AssetClass, Seq<char>> {
        match AssetClass::parse(self@) {
            Some(v) => Ok(v),
            None => Err("invalid value"@),
        }
    }

    fn into_field(self) -> (r: Result<AssetClass, ConversionError>) {
        AssetClass::from_str(self.as_str())
    }
}

impl<'a> FieldInput<AssetClass> for &'a AssetClass {
    open spec fn converted(&self) -> Result<AssetClass, Seq<char>> {
        Ok(**self)
    }

    fn into_field(self) -> (r: Result<AssetClass, ConversionError>) {
        Ok(*self)
    }
}

/// What a builder setter makes of each kind of input for a `AssetClass` field:
/// a value (or a reference to one) stands for itself, and text of any of the
/// three string kinds is read exactly as `from_str` reads it: the value that
/// the text names, or `invalid value`.
pub proof fn lemma_asset_class_inputs(v: AssetClass, t: &str, w: &String, u: String)
    ensures
        <AssetClass as FieldInput<AssetClass>>::converted(&v) == Ok::<AssetClass, Seq<char>>(v),
        <&AssetClass as FieldInput<AssetClass>>::converted(&&v) == Ok::<AssetClass, Seq<char>>(v),
        <&str as FieldInput<AssetClass>>::converted(&t) matches Ok(x) ==> AssetClass::parse(t@) == Some(x),
        <&str as FieldInput<AssetClass>>::converted(&t) matches Err(e) ==> AssetClass::parse(t@) is None && e == "invalid value"@,
        AssetClass::parse(t@) matches Some(x) ==> <&str as FieldInput<AssetClass>>::converted(&t) == Ok::<AssetClass, Seq<char>>(x),
        <&String as FieldInput<AssetClass>>::converted(&w) matches Ok(x) ==> AssetClass::parse(w@) == Some(x),
        <&String as FieldInput<AssetClass>>::converted(&w) matches Err(e) ==> AssetClass::parse(w@) is None && e == "invalid value"@,
        AssetClass::parse(w@) matches Some(x) ==> <&String as FieldInput<AssetClass>>::converted(&w) == Ok::<AssetClass, Seq<char>>(x),
        <String as FieldInput<AssetClass>>::converted(&u) matches Ok(x) ==> AssetClass::parse(u@) == Some(x),
        <String as FieldInput<AssetClass>>::converted(&u) matches Err(e) ==> AssetClass::parse(u@) is None && e == "invalid value"@,
        AssetClass::parse(u@) matches Some(x) ==> <String as FieldInput<AssetClass>>::converted(&u) == Ok::<AssetClass, Seq<char>>(x),
{
}

impl<'a> TryFrom<&'a str> for AssetClass {
    type Error = ConversionError;

    fn try_from(value: &'a str) -> (r: Result<AssetClass, ConversionError>)
        ensures
            match r {
                Ok(v) => AssetClass::parse(value@) == Some(v),
                Err(e) => AssetClass::parse(value@) is None && e@ == "invalid value"@,
            },
    {
        AssetClass::from_str(value)
    }
}

/// The contract of this conversion is the one on its `try_from` above;
/// nothing is claimed through the generic specification.
impl<'a> vstd::std_specs::convert::TryFromSpecImpl<&'a str> for AssetClass {
    open spec fn obeys_try_from_spec() -> bool {
        false
    }

    open spec fn try_from_spec(value: &'a str) -> Result<AssetClass, ConversionError> {
        arbitrary()
    }
}

impl<'a> TryFrom<&'a String> for AssetClass {
    type Error = ConversionError;

    fn try_from(value: &'a String) -> (r: Result<AssetClass, ConversionError>)
        ensures
            match r {
                Ok(v) => AssetClass::parse(value@) == Some(v),
                Err(e) => AssetClass::parse(value@) is None && e@ == "invalid value"@,
            },
    {
        AssetClass::from_str(value.as_str())
    }
}

/// The contract of this conversion is the one on its `try_from` above;
/// nothing is claimed through the generic specification.
impl<'a> vstd::std_specs::convert::TryFromSpecImpl<&'a String> for AssetClass {
    open spec fn obeys_try_from_spec() -> bool {
        false
    }

    open spec fn try_from_spec(value: &'a String) -> Result<AssetClass, ConversionError> {
        arbitrary()
    }
}

impl TryFrom<String> for AssetClass {
    type Error = ConversionError;

    fn try_from(value: String) -> (r: Result<AssetClass, ConversionError>)
        ensures
            match r {
                Ok(v) => AssetClass::parse(value@) == Some(v),
                Err(e) => AssetClass::parse(value@) is None && e@ == "invalid value"@,
            },
    {
        AssetClass::from_str(value.as_str())
    }
}

/// The contract of this conversion is the one on its `try_from` above;
/// nothing is claimed through the generic specification.
impl vstd::std_specs::convert::TryFromSpecImpl<String> for AssetClass {
    open spec fn obeys_try_from_spec() -> bool {
        false
    }

    open spec fn try_from_spec(value: String) -> Result<AssetClass, ConversionError> {
        arbitrary()
    }
}

/// ISO 4217 currency code (for example USD, JPY, EUR).
///
/// The text of every value matches `^[A-Z]{3}$`: three upper-case letters.
#[derive(Debug, PartialEq, Eq, Hash, PartialOrd, Ord)]
pub struct Currency(String);

impl Currency {
    #[verifier::type_invariant]
    spec fn well_formed(self) -> bool {
        is_currency_code(self.0@)
    }
}

impl View for Currency {
    type V = Seq<char>;

    closed spec fn view(&self) -> Seq<char> {
        self.0@
    }
}

impl DeepView for Currency {
    type V = Seq<char>;

    open spec fn deep_view(&self) -> Seq<char> {
        self@
    }
}

impl Clone for Currency {
    fn clone(&self) -> (r: Self)
        ensures
            r@ == self@,
    {
        proof {
            use_type_invariant(self);
        }
        Currency(self.0.clone())
    }
}

impl Currency {
    /// Validates `value`: it is accepted exactly when it matches `^[A-Z]{3}$`: three upper-case letters.
    pub fn from_str(value: &str) -> (r: Result<Currency, ConversionError>)
        ensures
            r is Ok <==> is_currency_code(value@),
            r matches Ok(v) ==> v@ == value@,
            r matches Err(e) ==> e@ == currency_mismatch(),
    {
        if !pattern_found("^[A-Z]{3}$", value) {
            return Err("doesn't match pattern \"^[A-Z]{3}$\"".to_owned());
        }
        Ok(Currency(value.to_owned()))
    }

    /// The text of this value.
    pub fn as_str(&self) -> (r: &str)
        ensures
            r@ == self@,
            is_currency_code(r@),
    {
        proof {
            use_type_invariant(self);
        }
        self.0.as_str()
    }

    /// The text of this value, as an owned string.
    pub fn into_string(self) -> (r: String)
        ensures
            r@ == self@,
            is_currency_code(r@),
    {
        proof {
            use_type_invariant(&self);
        }
        self.0
    }
}

impl std::str::FromStr for Currency {
    type Err = ConversionError;

    fn from_str(value: &str) -> (r: Result<Currency, ConversionError>)
        ensures
            r is Ok <==> is_currency_code(value@),
            r matches Ok(v) ==> v@ == value@,
            r matches Err(e) ==> e@ == currency_mismatch(),
    {
        Currency::from_str(value)
    }
}

impl FieldInput<Currency> for Currency {
    open spec fn converted(&self) -> Result<Seq<char>, Seq<char>> {
        Ok(self@)
    }

    fn into_field(self) -> (r: Result<Currency, ConversionError>) {
        Ok(self)
    }
}

impl<'a> FieldInput<Currency> for &'a str {
    open spec fn converted(&self) -> Result<Seq<char>, Seq<char>> {
        if is_currency_code(self@) {
            Ok(self@)
        } else {
            Err(currency_mismatch())
        }
    }

    fn into_field(self) -> (r: Result<Currency, ConversionError>) {
        Currency::from_str(self)
    }
}

impl<'a> FieldInput<Currency> for &'a String {
    open spec fn converted(&self) -> Result<Seq<char>, Seq<char>> {
        if is_currency_code(self@) {
            Ok(self@)
        } else {
            Err(currency_mismatch())
        }
    }

    fn into_field(self) -> (r: Result<Currency, ConversionError>) {
        Currency::from_str(self.as_str())
    }
}

impl FieldInput<Currency> for String {
    open spec fn converted(&self) -> Result<Seq<char>, Seq<char>> {
        if is_currency_code(self@) {
            Ok(self@)
        } else {
            Err(currency_mismatch())
        }
    }

    fn into_field(self) -> (r: Result<Currency, ConversionError>) {
        Currency::from_str(self.as_str())
    }
}

impl<'a> FieldInput<Currency> for &'a Currency {
    open spec fn converted(&self) -> Result<Seq<char>, Seq<char>> {
        Ok(self@)
    }

    fn into_field(self) -> (r: Result<Currency, ConversionError>) {
        Ok(self.clone())
    }
}

impl<'a> TryFrom<&'a str> for Currency {
    type Error = ConversionError;

    fn try_from(value: &'a str) -> (r: Result<Currency, ConversionError>)
        ensures
            r is Ok <==> is_currency_code(value@),
            r matches Ok(v) ==> v@ == value@,
            r matches Err(e) ==> e@ == currency_mismatch(),
    {
        Currency::from_str(value)
    }
}

/// The contract of this conversion is the one on its `try_from` above;
/// nothing is claimed through the generic specification.
impl<'a> vstd::std_specs::convert::TryFromSpecImpl<&'a str> for Currency {
    open spec fn obeys_try_from_spec() -> bool {
        false
    }

    open spec fn try_from_spec(value: &'a str) -> Result<Currency, ConversionError> {
        arbitrary()
    }
}

impl<'a> TryFrom<&'a String> for Currency {
    type Error = ConversionError;

    fn try_from(value: &'a String) -> (r: Result<Currency, ConversionError>)
        ensures
            r is Ok <==> is_currency_code(value@),
            r matches Ok(v) ==> v@ == value@,
            r matches Err(e) ==> e@ == currency_mismatch(),
    {
        Currency::from_str(value.as_str())
    }
}

/// The contract of this conversion is the one on its `try_from` above;
/// nothing is claimed through the generic specification.
impl<'a> vstd::std_specs::convert::TryFromSpecImpl<&'a String> for Currency {
    open spec fn obeys_try_from_spec() -> bool {
        false
    }

    open spec fn try_from_spec(value: &'a String) -> Result<Currency, ConversionError> {
        arbitrary()
    }
}

impl TryFrom<String> for Currency {
    type Error = ConversionError;

    fn try_from(value: String) -> (r: Result<Currency, ConversionError>)
        ensures
            r is Ok <==> is_currency_code(value@),
            r matches Ok(v) ==> v@ == value@,
            r matches Err(e) ==> e@ == currency_mismatch(),
    {
        Currency::from_str(value.as_str())
    }
}

/// The contract of this conversion is the one on its `try_from` above;
/// nothing is claimed through the generic specification.
impl vstd::std_specs::convert::TryFromSpecImpl<String> for Currency {
    open spec fn obeys_try_from_spec() -> bool {
        false
    }

    open spec fn try_from_spec(value: String) -> Result<Currency, ConversionError> {
        arbitrary()
    }
}

/// What a builder setter makes of each kind of input for a `Currency` field:
/// a value (or a reference to one) stands for itself, and text of any of the
/// three string kinds is read exactly as `from_str` reads it: accepted, with
/// its own text, when it matches `^[A-Z]{3}$`: three upper-case letters, refused with `from_str`'s message otherwise.
pub proof fn lemma_currency_inputs(v: Currency, o: Option<Currency>, t: &str, w: &String, u: String)
    ensures
        <Currency as FieldInput<Currency>>::converted(&v) == Ok::<Seq<char>, Seq<char>>(v@),
        <&Currency as FieldInput<Currency>>::converted(&&v) == Ok::<Seq<char>, Seq<char>>(v@),
        <&str as FieldInput<Currency>>::converted(&t) is Ok <==> is_currency_code(t@),
        <&str as FieldInput<Currency>>::converted(&t) matches Ok(x) ==> x == t@,
        <&str as FieldInput<Currency>>::converted(&t) matches Err(e) ==> e == currency_mismatch(),
        <&String as FieldInput<Currency>>::converted(&w) is Ok <==> is_currency_code(w@),
        <&String as FieldInput<Currency>>::converted(&w) matches Ok(x) ==> x == w@,
        <&String as FieldInput<Currency>>::converted(&w) matches Err(e) ==> e == currency_mismatch(),
        <String as FieldInput<Currency>>::converted(&u) is Ok <==> is_currency_code(u@),
        <String as FieldInput<Currency>>::converted(&u) matches Ok(x) ==> x == u@,
        <String as FieldInput<Currency>>::converted(&u) matches Err(e) ==> e == currency_mismatch(),
{
}

/// A date in the form YYYY-MM-DD.
///
/// The text of every value matches `^\d{4}-\d{2}-\d{2}$`: the shape YYYY-MM-DD.
#[derive(Debug, PartialEq, Eq, Hash, PartialOrd, Ord)]
pub struct Date(String);

impl Date {
    #[verifier::type_invariant]
    spec fn well_formed(self) -> bool {
        is_calendar_date(self.0@)
    }
}

impl View for Date {
    type V = Seq<char>;

    closed spec fn view(&self) -> Seq<char> {
        self.0@
    }
}

impl DeepView for Date {
    type V = Seq<char>;

    open spec fn deep_view(&self) -> Seq<char> {
        self@
    }
}

impl Clone for Date {
    fn clone(&self) -> (r: Self)
        ensures
            r@ == self@,
    {
        proof {
            use_type_invariant(self);
        }
        Date(self.0.clone())
    }
}

impl Date {
    /// Validates `value`: it is accepted exactly when it matches `^\d{4}-\d{2}-\d{2}$`: the shape YYYY-MM-DD.
    pub fn from_str(value: &str) -> (r: Result<Date, ConversionError>)
        ensures
            r is Ok <==> is_calendar_date(value@),
            r matches Ok(v) ==> v@ == value@,
            r matches Err(e) ==> e@ == calendar_date_mismatch(),
    {
        if !pattern_found("^\\d{4}-\\d{2}-\\d{2}$", value) {
            return Err("doesn't match pattern \"^\\d{4}-\\d{2}-\\d{2}$\"".to_owned());
        }
        Ok(Date(value.to_owned()))
    }

    /// The text of this value.
    pub fn as_str(&self) -> (r: &str)
        ensures
            r@ == self@,
            is_calendar_date(r@),
    {
        proof {
            use_type_invariant(self);
        }
        self.0.as_str()
    }

    /// The text of this value, as an owned string.
    pub fn into_string(self) -> (r: String)
        ensures
            r@ == self@,
            is_calendar_date(r@),
    {
        proof {
            use_type_invariant(&self);
        }
        self.0
    }
}

impl std::str::FromStr for Date {
    type Err = ConversionError;

    fn from_str(value: &str) -> (r: Result<Date, ConversionError>)
        ensures
            r is Ok <==> is_calendar_date(value@),
            r matches Ok(v) ==> v@ == value@,
            r matches Err(e) ==> e@ == calendar_date_mismatch(),
    {
        Date::from_str(value)
    }
}

impl FieldInput<Date> for Date {
    open spec fn converted(&self) -> Result<Seq<char>, Seq<char>> {
        Ok(self@)
    }

    fn into_field(self) -> (r: Result<Date, ConversionError>) {
        Ok(self)
    }
}

impl<'a> FieldInput<Date> for &'a str {
    open spec fn converted(&self) -> Result<Seq<char>, Seq<char>> {
        if is_calendar_date(self@) {
            Ok(self@)
        } else {
            Err(calendar_date_mismatch())
        }
    }

    fn into_field(self) -> (r: Result<Date, ConversionError>) {
        Date::from_str(self)
    }
}

impl<'a> FieldInput<Date> for &'a String {
    open spec fn converted(&self) -> Result<Seq<char>, Seq<char>> {
        if is_calendar_date(self@) {
            Ok(self@)
        } else {
            Err(calendar_date_mismatch())
        }
    }

    fn into_field(self) -> (r: Result<Date, ConversionError>) {
        Date::from_str(self.as_str())
    }
}

impl FieldInput<Date> for String {
    open spec fn converted(&self) -> Result<Seq<char>, Seq<char>> {
        if is_calendar_date(self@) {
            Ok(self@)
        } else {
            Err(calendar_date_mismatch())
        }
    }

    fn into_field(self) -> (r: Result<Date, ConversionError>) {
        Date::from_str(self.as_str())
    }
}

impl<'a> FieldInput<Date> for &'a Date {
    open spec fn converted(&self) -> Result<Seq<char>, Seq<char>> {
        Ok(self@)
    }

    fn into_field(self) -> (r: Result<Date, ConversionError>) {
        Ok(self.clone())
    }
}

impl<'a> TryFrom<&'a str> for Date {
    type Error = ConversionError;

    fn try_from(value: &'a str) -> (r: Result<Date, ConversionError>)
        ensures
            r is Ok <==> is_calendar_date(value@),
            r matches Ok(v) ==> v@ == value@,
            r matches Err(e) ==> e@ == calendar_date_mismatch(),
    {
        Date::from_str(value)
    }
}

/// The contract of this conversion is the one on its `try_from` above;
/// nothing is claimed through the generic specification.
impl<'a> vstd::std_specs::convert::TryFromSpecImpl<&'a str> for Date {
    open spec fn obeys_try_from_spec() -> bool {
        false
    }

    open spec fn try_from_spec(value: &'a str) -> Result<Date, ConversionError> {
        arbitrary()
    }
}

impl<'a> TryFrom<&'a String> for Date {
    type Error = ConversionError;

    fn try_from(value: &'a String) -> (r: Result<Date, ConversionError>)
        ensures
            r is Ok <==> is_calendar_date(value@),
            r matches Ok(v) ==> v@ == value@,
            r matches Err(e) ==> e@ == calendar_date_mismatch(),
    {
        Date::from_str(value.as_str())
    }
}

/// The contract of this conversion is the one on its `try_from` above;
/// nothing is claimed through the generic specification.
impl<'a> vstd::std_specs::convert::TryFromSpecImpl<&'a String> for Date {
    open spec fn obeys_try_from_spec() -> bool {
        false
    }

    open spec fn try_from_spec(value: &'a String) -> Result<Date, ConversionError> {
        arbitrary()
    }
}

impl TryFrom<String> for Date {
    type Error = ConversionError;

    fn try_from(value: String) -> (r: Result<Date, ConversionError>)
        ensures
            r is Ok <==> is_calendar_date(value@),
            r matches Ok(v) ==> v@ == value@,
            r matches Err(e) ==> e@ == calendar_date_mismatch(),
    {
        Date::from_str(value.as_str())
    }
}

/// The contract of this conversion is the one on its `try_from` above;
/// nothing is claimed through the generic specification.
impl vstd::std_specs::convert::TryFromSpecImpl<String> for Date {
    open spec fn obeys_try_from_spec() -> bool {
        false
    }

    open spec fn try_from_spec(value: String) -> Result<Date, ConversionError> {
        arbitrary()
    }
}

/// What a builder setter makes of each kind of input for a `Date` field:
/// a value (or a reference to one) stands for itself, and text of any of the
/// three string kinds is read exactly as `from_str` reads it: accepted, with
/// its own text, when it matches `^\d{4}-\d{2}-\d{2}$`: the shape YYYY-MM-DD, refused with `from_str`'s message otherwise.
pub proof fn lemma_date_inputs(v: Date, o: Option<Date>, t: &str, w: &String, u: String)
    ensures
        <Date as FieldInput<Date>>::converted(&v) == Ok::<Seq<char>, Seq<char>>(v@),
        <&Date as FieldInput<Date>>::converted(&&v) == Ok::<Seq<char>, Seq<char>>(v@),
        <&str as FieldInput<Date>>::converted(&t) is Ok <==> is_calendar_date(t@),
        <&str as FieldInput<Date>>::converted(&t) matches Ok(x) ==> x == t@,
        <&str as FieldInput<Date>>::converted(&t) matches Err(e) ==> e == calendar_date_mismatch(),
        <&String as FieldInput<Date>>::converted(&w) is Ok <==> is_calendar_date(w@),
        <&String as FieldInput<Date>>::converted(&w) matches Ok(x) ==> x == w@,
        <&String as FieldInput<Date>>::converted(&w) matches Err(e) ==> e == calendar_date_mismatch(),
        <String as FieldInput<Date>>::converted(&u) is Ok <==> is_calendar_date(u@),
        <String as FieldInput<Date>>::converted(&u) matches Ok(x) ==> x == u@,
        <String as FieldInput<Date>>::converted(&u) matches Err(e) ==> e == calendar_date_mismatch(),
{
}

/// ISO 10383 market identifier code (for example XJPX, XNYS).
///
/// The text of every value matches `^[A-Z]{4}$`: four upper-case letters.
#[derive(Debug, PartialEq, Eq, Hash, PartialOrd, Ord)]
pub struct Exchange(String);

impl Exchange {
    #[verifier::type_invariant]
    spec fn well_formed(self) -> bool {
        is_market_identifier(self.0@)
    }
}

impl View for Exchange {
    type V = Seq<char>;

    closed spec fn view(&self) -> Seq<char> {
        self.0@
    }
}

impl DeepView for Exchange {
    type V = Seq<char>;

    open spec fn deep_view(&self) -> Seq<char> {
        self@
    }
}

impl Clone for Exchange {
    fn clone(&self) -> (r: Self)
        ensures
            r@ == self@,
    {
        proof {
            use_type_invariant(self);
        }
        Exchange(self.0.clone())
    }
}

impl Exchange {
    /// Validates `value`: it is accepted exactly when it matches `^[A-Z]{4}$`: four upper-case letters.
    pub fn from_str(value: &str) -> (r: Result<Exchange, ConversionError>)
        ensures
            r is Ok <==> is_market_identifier(value@),
            r matches Ok(v) ==> v@ == value@,
            r matches Err(e) ==> e@ == market_identifier_mismatch(),
    {
        if !pattern_found("^[A-Z]{4}$", value) {
            return Err("doesn't match pattern \"^[A-Z]{4}$\"".to_owned());
        }
        Ok(Exchange(value.to_owned()))
    }

    /// The text of this value.
    pub fn as_str(&self) -> (r: &str)
        ensures
            r@ == self@,
            is_market_identifier(r@),
    {
        proof {
            use_type_invariant(self);
        }
        self.0.as_str()
    }

    /// The text of this value, as an owned string.
    pub fn into_string(self) -> (r: String)
        ensures
            r@ == self@,
            is_market_identifier(r@),
    {
        proof {
            use_type_invariant(&self);
        }
        self.0
    }
}

impl std::str::FromStr for Exchange {
    type Err = ConversionError;

    fn from_str(value: &str) -> (r: Result<Exchange, ConversionError>)
        ensures
            r is Ok <==> is_market_identifier(value@),
            r matches Ok(v) ==> v@ == value@,
            r matches Err(e) ==> e@ == market_identifier_mismatch(),
    {
        Exchange::from_str(value)
    }
}

impl FieldInput<Exchange> for Exchange {
    open spec fn converted(&self) -> Result<Seq<char>, Seq<char>> {
        Ok(self@)
    }

    fn into_field(self) -> (r: Result<Exchange, ConversionError>) {
        Ok(self)
    }
}

impl<'a> FieldInput<Exchange> for &'a str {
    open spec fn converted(&self) -> Result<Seq<char>, Seq<char>> {
        if is_market_identifier(self@) {
            Ok(self@)
        } else {
            Err(market_identifier_mismatch())
        }
    }

    fn into_field(self) -> (r: Result<Exchange, ConversionError>) {
        Exchange::from_str(self)
    }
}

impl<'a> FieldInput<Exchange> for &'a String {
    open spec fn converted(&self) -> Result<Seq<char>, Seq<char>> {
        if is_market_identifier(self@) {
            Ok(self@)
        } else {
            Err(market_identifier_mismatch())
        }
    }

    fn into_field(self) -> (r: Result<Exchange, ConversionError>) {
        Exchange::from_str(self.as_str())
    }
}

impl FieldInput<Exchange> for String {
    open spec fn converted(&self) -> Result<Seq<char>, Seq<char>> {
        if is_market_identifier(self@) {
            Ok(self@)
        } else {
            Err(market_identifier_mismatch())
        }
    }

    fn into_field(self) -> (r: Result<Exchange, ConversionError>) {
        Exchange::from_str(self.as_str())
    }
}

impl<'a> FieldInput<Exchange> for &'a Exchange {
    open spec fn converted(&self) -> Result<Seq<char>, Seq<char>> {
        Ok(self@)
    }

    fn into_field(self) -> (r: Result<Exchange, ConversionError>) {
        Ok(self.clone())
    }
}

impl<'a> TryFrom<&'a str> for Exchange {
    type Error = ConversionError;

    fn try_from(value: &'a str) -> (r: Result<Exchange, ConversionError>)
        ensures
            r is Ok <==> is_market_identifier(value@),
            r matches Ok(v) ==> v@ == value@,
            r matches Err(e) ==> e@ == market_identifier_mismatch(),
    {
        Exchange::from_str(value)
    }
}

/// The contract of this conversion is the one on its `try_from` above;
/// nothing is claimed through the generic specification.
impl<'a> vstd::std_specs::convert::TryFromSpecImpl<&'a str> for Exchange {
    open spec fn obeys_try_from_spec() -> bool {
        false
    }

    open spec fn try_from_spec(value: &'a str) -> Result<Exchange, ConversionError> {
        arbitrary()
    }
}

impl<'a> TryFrom<&'a String> for Exchange {
    type Error = ConversionError;

    fn try_from(value: &'a String) -> (r: Result<Exchange, ConversionError>)
        ensures
            r is Ok <==> is_market_identifier(value@),
            r matches Ok(v) ==> v@ == value@,
            r matches Err(e) ==> e@ == market_identifier_mismatch(),
    {
        Exchange::from_str(value.as_str())
    }
}

/// The contract of this conversion is the one on its `try_from` above;
/// nothing is claimed through the generic specification.
impl<'a> vstd::std_specs::convert::TryFromSpecImpl<&'a String> for Exchange {
    open spec fn obeys_try_from_spec() -> bool {
        false
    }

    open spec fn try_from_spec(value: &'a String) -> Result<Exchange, ConversionError> {
        arbitrary()
    }
}

impl TryFrom<String> for Exchange {
    type Error = ConversionError;

    fn try_from(value: String) -> (r: Result<Exchange, ConversionError>)
        ensures
            r is Ok <==> is_market_identifier(value@),
            r matches Ok(v) ==> v@ == value@,
            r matches Err(e) ==> e@ == market_identifier_mismatch(),
    {
        Exchange::from_str(value.as_str())
    }
}

/// The contract of this conversion is the one on its `try_from` above;
/// nothing is claimed through the generic specification.
impl vstd::std_specs::convert::TryFromSpecImpl<String> for Exchange {
    open spec fn obeys_try_from_spec() -> bool {
        false
    }

    open spec fn try_from_spec(value: String) -> Result<Exchange, ConversionError> {
        arbitrary()
    }
}

/// What a builder setter makes of each kind of input for a `Exchange` field:
/// a value (or a reference to one) stands for itself, and text of any of the
/// three string kinds is read exactly as `from_str` reads it: accepted, with
/// its own text, when it matches `^[A-Z]{4}$`: four upper-case letters, refused with `from_str`'s message otherwise.
pub proof fn lemma_exchange_inputs(v: Exchange, o: Option<Exchange>, t: &str, w: &String, u: String)
    ensures
        <Exchange as FieldInput<Exchange>>::converted(&v) == Ok::<Seq<char>, Seq<char>>(v@),
        <&Exchange as FieldInput<Exchange>>::converted(&&v) == Ok::<Seq<char>, Seq<char>>(v@),
        <&str as FieldInput<Exchange>>::converted(&t) is Ok <==> is_market_identifier(t@),
        <&str as FieldInput<Exchange>>::converted(&t) matches Ok(x) ==> x == t@,
        <&str as FieldInput<Exchange>>::converted(&t) matches Err(e) ==> e == market_identifier_mismatch(),
        <&String as FieldInput<Exchange>>::converted(&w) is Ok <==> is_market_identifier(w@),
        <&String as FieldInput<Exchange>>::converted(&w) matches Ok(x) ==> x == w@,
        <&String as FieldInput<Exchange>>::converted(&w) matches Err(e) ==> e == market_identifier_mismatch(),
        <String as FieldInput<Exchange>>::converted(&u) is Ok <==> is_market_identifier(u@),
        <String as FieldInput<Exchange>>::converted(&u) matches Ok(x) ==> x == u@,
        <String as FieldInput<Exchange>>::converted(&u) matches Err(e) ==> e == market_identifier_mismatch(),
{
}

/// Option exercise style.
///
/// The schema names its values `american`, `european`, `bermudan`.
#[derive(Clone, Copy, Debug, PartialEq, Eq, Structural, Hash, PartialOrd, Ord)]
pub enum ExerciseStyle {
    American,
    European,
    Bermudan,
}

impl View for ExerciseStyle {
    type V = ExerciseStyle;

    open spec fn view(&self) -> ExerciseStyle {
        *self
    }
}

impl DeepView for ExerciseStyle {
    type V = ExerciseStyle;

    open spec fn deep_view(&self) -> ExerciseStyle {
        *self
    }
}

impl ExerciseStyle {
    /// The schema's name of each value.
    pub open spec fn name(self) -> Seq<char> {
        match self {
            ExerciseStyle::American => "american"@,
            ExerciseStyle::European => "european"@,
            ExerciseStyle::Bermudan => "bermudan"@,
        }
    }

    /// The value that the text `s` names, if any.
    pub open spec fn parse(s: Seq<char>) -> Option<ExerciseStyle> {
        if s == "american"@ {
            Some(ExerciseStyle::American)
        } else if s == "european"@ {
            Some(ExerciseStyle::European)
        } else if s == "bermudan"@ {
            Some(ExerciseStyle::Bermudan)
        } else {
            None
        }
    }

    /// The schema's name of this value.
    pub fn as_str(&self) -> (r: &'static str)
        ensures
            r@ == self.name(),
    {
        match self {
            ExerciseStyle::American => "american",
            ExerciseStyle::European => "european",
            ExerciseStyle::Bermudan => "bermudan",
        }
    }

    /// The schema's name of this value, as an owned string.
    pub fn to_string(&self) -> (r: String)
        ensures
            r@ == self.name(),
    {
        self.as_str().to_owned()
    }

    /// The value that `value` names; any other text is refused.
    pub fn from_str(value: &str) -> (r: Result<ExerciseStyle, ConversionError>)
        ensures
            match r {
                Ok(v) => ExerciseStyle::parse(value@) == Some(v),
                Err(e) => ExerciseStyle::parse(value@) is None && e@ == "invalid value"@,
            },
    {
        if str_eq(value, "american") {
            Ok(ExerciseStyle::American)
        } else if str_eq(value, "european") {
            Ok(ExerciseStyle::European)
        } else if str_eq(value, "bermudan") {
            Ok(ExerciseStyle::Bermudan)
        } else {
            Err("invalid value".to_owned())
        }
    }
}

/// Each value is read back from its name, and text that is read as a value
/// is that value's name: `from_str` undoes `to_string`.
pub proof fn lemma_exercise_style_names(v: ExerciseStyle)
    ensures
        ExerciseStyle::parse(v.name()) == Some(v),
        forall|s: Seq<char>| ExerciseStyle::parse(s) == Some(v) ==> s == v.name(),
{
    reveal_strlit("american");
    reveal_strlit("european");
    reveal_strlit("bermudan");
    assert("american"@.len() == 8);
    assert("american"@[0] == 'a');
    assert("european"@.len() == 8);
    assert("european"@[0] == 'e');
    assert("bermudan"@.len() == 8);
    assert("bermudan"@[0] == 'b');
}

impl std::str::FromStr for ExerciseStyle {
    type Err = ConversionError;

    fn from_str(value: &str) -> (r: Result<ExerciseStyle, ConversionError>)
        ensures
            match r {
                Ok(v) => ExerciseStyle::parse(value@) == Some(v),
                Err(e) => ExerciseStyle::parse(value@) is None && e@ == "invalid value"@,
            },
    {
        ExerciseStyle::from_str(value)
    }
}

impl FieldInput<ExerciseStyle> for ExerciseStyle {
    open spec fn converted(&self) -> Result<ExerciseStyle, Seq<char>> {
        Ok(*self)
    }

    fn into_field(self) -> (r: Result<ExerciseStyle, ConversionError>) {
        Ok(self)
    }
}

impl<'a> FieldInput<ExerciseStyle> for &'a str {
    open spec fn converted(&self) -> Result<ExerciseStyle, Seq<char>> {
        match ExerciseStyle::parse(self@) {
            Some(v) => Ok(v),
            None => Err("invalid value"@),
        }
    }

    fn into_field(self) -> (r: Result<ExerciseStyle, ConversionError>) {
        ExerciseStyle::from_str(self)
    }
}

impl<'a> FieldInput<ExerciseStyle> for &'a String {
    open spec fn converted(&self) -> Result<ExerciseStyle, Seq<char>> {
        match ExerciseStyle::parse(self@) {
            Some(v) => Ok(v),
            None => Err("invalid value"@),
        }
    }

    fn into_field(self) -> (r: Result<ExerciseStyle, ConversionError>) {
        ExerciseStyle::from_str(self.as_str())
    }
}

impl FieldInput<ExerciseStyle> for String {
    open spec fn converted(&self) -> Result<ExerciseStyle, Seq<char>> {
        match ExerciseStyle::parse(self@) {
            Some(v) => Ok(v),
            None => Err("invalid value"@),
        }
    }

    fn into_field(self) -> (r: Result<ExerciseStyle, ConversionError>) {
        ExerciseStyle::from_str(self.as_str())
    }
}

impl<'a> FieldInput<ExerciseStyle> for &'a ExerciseStyle {
    open spec fn converted(&self) -> Result<ExerciseStyle, Seq<char>> {
        Ok(**self)
    }

    fn into_field(self) -> (r: Result<ExerciseStyle, ConversionError>) {
        Ok(*self)
    }
}

/// What a builder setter makes of each kind of input for a `ExerciseStyle` field:
/// a value (or a reference to one) stands for itself, and text of any of the
/// three string kinds is read exactly as `from_str` reads it: the value that
/// the text names, or `invalid value`.
pub proof fn lemma_exercise_style_inputs(v: ExerciseStyle, t: &str, w: &String, u: String)
    ensures
        <ExerciseStyle as FieldInput<ExerciseStyle>>::converted(&v) == Ok::<ExerciseStyle, Seq<char>>(v),
        <&ExerciseStyle as FieldInput<ExerciseStyle>>::converted(&&v) == Ok::<ExerciseStyle, Seq<char>>(v),
        <&str as FieldInput<ExerciseStyle>>::converted(&t) matches Ok(x) ==> ExerciseStyle::parse(t@) == Some(x),
        <&str as FieldInput<ExerciseStyle>>::converted(&t) matches Err(e) ==> ExerciseStyle::parse(t@) is None && e == "invalid value"@,
        ExerciseStyle::parse(t@) matches Some(x) ==> <&str as FieldInput<ExerciseStyle>>::converted(&t) == Ok::<ExerciseStyle, Seq<char>>(x),
        <&String as FieldInput<ExerciseStyle>>::converted(&w) matches Ok(x) ==> ExerciseStyle::parse(w@) == Some(x),
        <&String as FieldInput<ExerciseStyle>>::converted(&w) matches Err(e) ==> ExerciseStyle::parse(w@) is None && e == "invalid value"@,
        ExerciseStyle::parse(w@) matches Some(x) ==> <&String as FieldInput<ExerciseStyle>>::converted(&w) == Ok::<ExerciseStyle, Seq<char>>(x),
        <String as FieldInput<ExerciseStyle>>::converted(&u) matches Ok(x) ==> ExerciseStyle::parse(u@) == Some(x),
        <String as FieldInput<ExerciseStyle>>::converted(&u) matches Err(e) ==> ExerciseStyle::parse(u@) is None && e == "invalid value"@,
        ExerciseStyle::parse(u@) matches Some(x) ==> <String as FieldInput<ExerciseStyle>>::converted(&u) == Ok::<ExerciseStyle, Seq<char>>(x),
{
}

impl<'a> TryFrom<&'a str> for ExerciseStyle {
    type Error = ConversionError;

    fn try_from(value: &'a str) -> (r: Result<ExerciseStyle, ConversionError>)
        ensures
            match r {
                Ok(v) => ExerciseStyle::parse(value@) == Some(v),
                Err(e) => ExerciseStyle::parse(value@) is None && e@ == "invalid value"@,
            },
    {
        ExerciseStyle::from_str(value)
    }
}

/// The contract of this conversion is the one on its `try_from` above;
/// nothing is claimed through the generic specification.
impl<'a> vstd::std_specs::convert::TryFromSpecImpl<&'a str> for ExerciseStyle {
    open spec fn obeys_try_from_spec() -> bool {
        false
    }

    open spec fn try_from_spec(value: &'a str) -> Result<ExerciseStyle, ConversionError> {
        arbitrary()
    }
}

impl<'a> TryFrom<&'a String> for ExerciseStyle {
    type Error = ConversionError;

    fn try_from(value: &'a String) -> (r: Result<ExerciseStyle, ConversionError>)
        ensures
            match r {
                Ok(v) => ExerciseStyle::parse(value@) == Some(v),
                Err(e) => ExerciseStyle::parse(value@) is None && e@ == "invalid value"@,
            },
    {
        ExerciseStyle::from_str(value.as_str())
    }
}

/// The contract of this conversion is the one on its `try_from` above;
/// nothing is claimed through the generic specification.
impl<'a> vstd::std_specs::convert::TryFromSpecImpl<&'a String> for ExerciseStyle {
    open spec fn obeys_try_from_spec() -> bool {
        false
    }

    open spec fn try_from_spec(value: &'a String) -> Result<ExerciseStyle, ConversionError> {
        arbitrary()
    }
}

impl TryFrom<String> for ExerciseStyle {
    type Error = ConversionError;

    fn try_from(value: String) -> (r: Result<ExerciseStyle, ConversionError>)
        ensures
            match r {
                Ok(v) => ExerciseStyle::parse(value@) == Some(v),
                Err(e) => ExerciseStyle::parse(value@) is None && e@ == "invalid value"@,
            },
    {
        ExerciseStyle::from_str(value.as_str())
    }
}

/// The contract of this conversion is the one on its `try_from` above;
/// nothing is claimed through the generic specification.
impl vstd::std_specs::convert::TryFromSpecImpl<String> for ExerciseStyle {
    open spec fn obeys_try_from_spec() -> bool {
        false
    }

    open spec fn try_from_spec(value: String) -> Result<ExerciseStyle, ConversionError> {
        arbitrary()
    }
}

/// Identifier of an expiry series (YYYY-MM, YYYY-Www or YYYY-MM-DD).
///
/// The text of every value matches `^\d{4}(-\d{2}|-W\d{2}|-\d{2}-\d{2})$`: one of the shapes YYYY-MM, YYYY-Www, YYYY-MM-DD.
#[derive(Debug, PartialEq, Eq, Hash, PartialOrd, Ord)]
pub struct ExpirySeries(String);

impl ExpirySeries {
    #[verifier::type_invariant]
    spec fn well_formed(self) -> bool {
        is_expiry_series(self.0@)
    }
}

impl View for ExpirySeries {
    type V = Seq<char>;

    closed spec fn view(&self) -> Seq<char> {
        self.0@
    }
}

impl DeepView for ExpirySeries {
    type V = Seq<char>;

    open spec fn deep_view(&self) -> Seq<char> {
        self@
    }
}

impl Clone for ExpirySeries {
    fn clone(&self) -> (r: Self)
        ensures
            r@ == self@,
    {
        proof {
            use_type_invariant(self);
        }
        ExpirySeries(self.0.clone())
    }
}

impl ExpirySeries {
    /// Validates `value`: it is accepted exactly when it matches `^\d{4}(-\d{2}|-W\d{2}|-\d{2}-\d{2})$`: one of the shapes YYYY-MM, YYYY-Www, YYYY-MM-DD.
    pub fn from_str(value: &str) -> (r: Result<ExpirySeries, ConversionError>)
        ensures
            r is Ok <==> is_expiry_series(value@),
            r matches Ok(v) ==> v@ == value@,
            r matches Err(e) ==> e@ == expiry_series_mismatch(),
    {
        if !pattern_found("^\\d{4}(-\\d{2}|-W\\d{2}|-\\d{2}-\\d{2})$", value) {
            return Err("doesn't match pattern \"^\\d{4}(-\\d{2}|-W\\d{2}|-\\d{2}-\\d{2})$\"".to_owned());
        }
        Ok(ExpirySeries(value.to_owned()))
    }

    /// The text of this value.
    pub fn as_str(&self) -> (r: &str)
        ensures
            r@ == self@,
            is_expiry_series(r@),
    {
        proof {
            use_type_invariant(self);
        }
        self.0.as_str()
    }

    /// The text of this value, as an owned string.
    pub fn into_string(self) -> (r: String)
        ensures
            r@ == self@,
            is_expiry_series(r@),
    {
        proof {
            use_type_invariant(&self);
        }
        self.0
    }
}

impl std::str::FromStr for ExpirySeries {
    type Err = ConversionError;

    fn from_str(value: &str) -> (r: Result<ExpirySeries, ConversionError>)
        ensures
            r is Ok <==> is_expiry_series(value@),
            r matches Ok(v) ==> v@ == value@,
            r matches Err(e) ==> e@ == expiry_series_mismatch(),
    {
        ExpirySeries::from_str(value)
    }
}

impl FieldInput<ExpirySeries> for ExpirySeries {
    open spec fn converted(&self) -> Result<Seq<char>, Seq<char>> {
        Ok(self@)
    }

    fn into_field(self) -> (r: Result<ExpirySeries, ConversionError>) {
        Ok(self)
    }
}

impl<'a> FieldInput<ExpirySeries> for &'a str {
    open spec fn converted(&self) -> Result<Seq<char>, Seq<char>> {
        if is_expiry_series(self@) {
            Ok(self@)
        } else {
            Err(expiry_series_mismatch())
        }
    }

    fn into_field(self) -> (r: Result<ExpirySeries, ConversionError>) {
        ExpirySeries::from_str(self)
    }
}

impl<'a> FieldInput<ExpirySeries> for &'a String {
    open spec fn converted(&self) -> Result<Seq<char>, Seq<char>> {
        if is_expiry_series(self@) {
            Ok(self@)
        } else {
            Err(expiry_series_mismatch())
        }
    }

    fn into_field(self) -> (r: Result<ExpirySeries, ConversionError>) {
        ExpirySeries::from_str(self.as_str())
    }
}

impl FieldInput<ExpirySeries> for String {
    open spec fn converted(&self) -> Result<Seq<char>, Seq<char>> {
        if is_expiry_series(self@) {
            Ok(self@)
        } else {
            Err(expiry_series_mismatch())
        }
    }

    fn into_field(self) -> (r: Result<ExpirySeries, ConversionError>) {
        ExpirySeries::from_str(self.as_str())
    }
}

impl<'a> FieldInput<ExpirySeries> for &'a ExpirySeries {
    open spec fn converted(&self) -> Result<Seq<char>, Seq<char>> {
        Ok(self@)
    }

    fn into_field(self) -> (r: Result<ExpirySeries, ConversionError>) {
        Ok(self.clone())
    }
}

impl<'a> TryFrom<&'a str> for ExpirySeries {
    type Error = ConversionError;

    fn try_from(value: &'a str) -> (r: Result<ExpirySeries, ConversionError>)
        ensures
            r is Ok <==> is_expiry_series(value@),
            r matches Ok(v) ==> v@ == value@,
            r matches Err(e) ==> e@ == expiry_series_mismatch(),
    {
        ExpirySeries::from_str(value)
    }
}

/// The contract of this conversion is the one on its `try_from` above;
/// nothing is claimed through the generic specification.
impl<'a> vstd::std_specs::convert::TryFromSpecImpl<&'a str> for ExpirySeries {
    open spec fn obeys_try_from_spec() -> bool {
        false
    }

    open spec fn try_from_spec(value: &'a str) -> Result<ExpirySeries, ConversionError> {
        arbitrary()
    }
}

impl<'a> TryFrom<&'a String> for ExpirySeries {
    type Error = ConversionError;

    fn try_from(value: &'a String) -> (r: Result<ExpirySeries, ConversionError>)
        ensures
            r is Ok <==> is_expiry_series(value@),
            r matches Ok(v) ==> v@ == value@,
            r matches Err(e) ==> e@ == expiry_series_mismatch(),
    {
        ExpirySeries::from_str(value.as_str())
    }
}

/// The contract of this conversion is the one on its `try_from` above;
/// nothing is claimed through the generic specification.
impl<'a> vstd::std_specs::convert::TryFromSpecImpl<&'a String> for ExpirySeries {
    open spec fn obeys_try_from_spec() -> bool {
        false
    }

    open spec fn try_from_spec(value: &'a String) -> Result<ExpirySeries, ConversionError> {
        arbitrary()
    }
}

impl TryFrom<String> for ExpirySeries {
    type Error = ConversionError;

    fn try_from(value: String) -> (r: Result<ExpirySeries, ConversionError>)
        ensures
            r is Ok <==> is_expiry_series(value@),
            r matches Ok(v) ==> v@ == value@,
            r matches Err(e) ==> e@ == expiry_series_mismatch(),
    {
        ExpirySeries::from_str(value.as_str())
    }
}

/// The contract of this conversion is the one on its `try_from` above;
/// nothing is claimed through the generic specification.
impl vstd::std_specs::convert::TryFromSpecImpl<String> for ExpirySeries {
    open spec fn obeys_try_from_spec() -> bool {
        false
    }

    open spec fn try_from_spec(value: String) -> Result<ExpirySeries, ConversionError> {
        arbitrary()
    }
}

/// What a builder setter makes of each kind of input for a `ExpirySeries` field:
/// a value (or a reference to one) stands for itself, and text of any of the
/// three string kinds is read exactly as `from_str` reads it: accepted, with
/// its own text, when it matches `^\d{4}(-\d{2}|-W\d{2}|-\d{2}-\d{2})$`: one of the shapes YYYY-MM, YYYY-Www, YYYY-MM-DD, refused with `from_str`'s message otherwise.
pub proof fn lemma_expiry_series_inputs(v: ExpirySeries, o: Option<ExpirySeries>, t: &str, w: &String, u: String)
    ensures
        <ExpirySeries as FieldInput<ExpirySeries>>::converted(&v) == Ok::<Seq<char>, Seq<char>>(v@),
        <&ExpirySeries as FieldInput<ExpirySeries>>::converted(&&v) == Ok::<Seq<char>, Seq<char>>(v@),
        <&str as FieldInput<ExpirySeries>>::converted(&t) is Ok <==> is_expiry_series(t@),
        <&str as FieldInput<ExpirySeries>>::converted(&t) matches Ok(x) ==> x == t@,
        <&str as FieldInput<ExpirySeries>>::converted(&t) matches Err(e) ==> e == expiry_series_mismatch(),
        <&String as FieldInput<ExpirySeries>>::converted(&w) is Ok <==> is_expiry_series(w@),
        <&String as FieldInput<ExpirySeries>>::converted(&w) matches Ok(x) ==> x == w@,
        <&String as FieldInput<ExpirySeries>>::converted(&w) matches Err(e) ==> e == expiry_series_mismatch(),
        <String as FieldInput<ExpirySeries>>::converted(&u) is Ok <==> is_expiry_series(u@),
        <String as FieldInput<ExpirySeries>>::converted(&u) matches Ok(x) ==> x == u@,
        <String as FieldInput<ExpirySeries>>::converted(&u) matches Err(e) ==> e == expiry_series_mismatch(),
{
}

/// Option type: call or put.
///
/// The schema names its values `call`, `put`.
#[derive(Clone, Copy, Debug, PartialEq, Eq, Structural, Hash, PartialOrd, Ord)]
pub enum OptionType {
    Call,
    Put,
}

impl View for OptionType {
    type V = OptionType;

    open spec fn view(&self) -> OptionType {
        *self
    }
}

impl DeepView for OptionType {
    type V = OptionType;

    open spec fn deep_view(&self) -> OptionType {
        *self
    }
}

impl OptionType {
    /// The schema's name of each value.
    pub open spec fn name(self) -> Seq<char> {
        match self {
            OptionType::Call => "call"@,
            OptionType::Put => "put"@,
        }
    }

    /// The value that the text `s` names, if any.
    pub open spec fn parse(s: Seq<char>) -> Option<OptionType> {
        if s == "call"@ {
            Some(OptionType::Call)
        } else if s == "put"@ {
            Some(OptionType::Put)
        } else {
            None
        }
    }

    /// The schema's name of this value.
    pub fn as_str(&self) -> (r: &'static str)
        ensures
            r@ == self.name(),
    {
        match self {
            OptionType::Call => "call",
            OptionType::Put => "put",
        }
    }

    /// The schema's name of this value, as an owned string.
    pub fn to_string(&self) -> (r: String)
        ensures
            r@ == self.name(),
    {
        self.as_str().to_owned()
    }

    /// The value that `value` names; any other text is refused.
    pub fn from_str(value: &str) -> (r: Result<OptionType, ConversionError>)
        ensures
            match r {
                Ok(v) => OptionType::parse(value@) == Some(v),
                Err(e) => OptionType::parse(value@) is None && e@ == "invalid value"@,
            },
    {
        if str_eq(value, "call") {
            Ok(OptionType::Call)
        } else if str_eq(value, "put") {
            Ok(OptionType::Put)
        } else {
            Err("invalid value".to_owned())
        }
    }
}

/// Each value is read back from its name, and text that is read as a value
/// is that value's name: `from_str` undoes `to_string`.
pub proof fn lemma_option_type_names(v: OptionType)
    ensures
        OptionType::parse(v.name()) == Some(v),
        forall|s: Seq<char>| OptionType::parse(s) == Some(v) ==> s == v.name(),
{
    reveal_strlit("call");
    reveal_strlit("put");
    assert("call"@.len() == 4);
    assert("put"@.len() == 3);
}

impl std::str::FromStr for OptionType {
    type Err = ConversionError;

    fn from_str(value: &str) -> (r: Result<OptionType, ConversionError>)
        ensures
            match r {
                Ok(v) => OptionType::parse(value@) == Some(v),
                Err(e) => OptionType::parse(value@) is None && e@ == "invalid value"@,
            },
    {
        OptionType::from_str(value)
    }
}

impl FieldInput<OptionType> for OptionType {
    open spec fn converted(&self) -> Result<OptionType, Seq<char>> {
        Ok(*self)
    }

    fn into_field(self) -> (r: Result<OptionType, ConversionError>) {
        Ok(self)
    }
}

impl<'a> FieldInput<OptionType> for &'a str {
    open spec fn converted(&self) -> Result<OptionType, Seq<char>> {
        match OptionType::parse(self@) {
            Some(v) => Ok(v),
            None => Err("invalid value"@),
        }
    }

    fn into_field(self) -> (r: Result<OptionType, ConversionError>) {
        OptionType::from_str(self)
    }
}

impl<'a> FieldInput<OptionType> for &'a String {
    open spec fn converted(&self) -> Result<OptionType, Seq<char>> {
        match OptionType::parse(self@) {
            Some(v) => Ok(v),
            None => Err("invalid value"@),
        }
    }

    fn into_field(self) -> (r: Result<OptionType, ConversionError>) {
        OptionType::from_str(self.as_str())
    }
}

impl FieldInput<OptionType> for String {
    open spec fn converted(&self) -> Result<OptionType, Seq<char>> {
        match OptionType::parse(self@) {
            Some(v) => Ok(v),
            None => Err("invalid value"@),
        }
    }

    fn into_field(self) -> (r: Result<OptionType, ConversionError>) {
        OptionType::from_str(self.as_str())
    }
}

impl<'a> FieldInput<OptionType> for &'a OptionType {
    open spec fn converted(&self) -> Result<OptionType, Seq<char>> {
        Ok(**self)
    }

    fn into_field(self) -> (r: Result<OptionType, ConversionError>) {
        Ok(*self)
    }
}

/// What a builder setter makes of each kind of input for a `OptionType` field:
/// a value (or a reference to one) stands for itself, and text of any of the
/// three string kinds is read exactly as `from_str` reads it: the value that
/// the text names, or `invalid value`.
pub proof fn lemma_option_type_inputs(v: OptionType, t: &str, w: &String, u: String)
    ensures
        <OptionType as FieldInput<OptionType>>::converted(&v) == Ok::<OptionType, Seq<char>>(v),
        <&OptionType as FieldInput<OptionType>>::converted(&&v) == Ok::<OptionType, Seq<char>>(v),
        <&str as FieldInput<OptionType>>::converted(&t) matches Ok(x) ==> OptionType::parse(t@) == Some(x),
        <&str as FieldInput<OptionType>>::converted(&t) matches Err(e) ==> OptionType::parse(t@) is None && e == "invalid value"@,
        OptionType::parse(t@) matches Some(x) ==> <&str as FieldInput<OptionType>>::converted(&t) == Ok::<OptionType, Seq<char>>(x),
        <&String as FieldInput<OptionType>>::converted(&w) matches Ok(x) ==> OptionType::parse(w@) == Some(x),
        <&String as FieldInput<OptionType>>::converted(&w) matches Err(e) ==> OptionType::parse(w@) is None && e == "invalid value"@,
        OptionType::parse(w@) matches Some(x) ==> <&String as FieldInput<OptionType>>::converted(&w) == Ok::<OptionType, Seq<char>>(x),
        <String as FieldInput<OptionType>>::converted(&u) matches Ok(x) ==> OptionType::parse(u@) == Some(x),
        <String as FieldInput<OptionType>>::converted(&u) matches Err(e) ==> OptionType::parse(u@) is None && e == "invalid value"@,
        OptionType::parse(u@) matches Some(x) ==> <String as FieldInput<OptionType>>::converted(&u) == Ok::<OptionType, Seq<char>>(x),
{
}

impl<'a> TryFrom<&'a str> for OptionType {
    type Error = ConversionError;

    fn try_from(value: &'a str) -> (r: Result<OptionType, ConversionError>)
        ensures
            match r {
                Ok(v) => OptionType::parse(value@) == Some(v),
                Err(e) => OptionType::parse(value@) is None && e@ == "invalid value"@,
            },
    {
        OptionType::from_str(value)
    }
}

/// The contract of this conversion is the one on its `try_from` above;
/// nothing is claimed through the generic specification.
impl<'a> vstd::std_specs::convert::TryFromSpecImpl<&'a str> for OptionType {
    open spec fn obeys_try_from_spec() -> bool {
        false
    }

    open spec fn try_from_spec(value: &'a str) -> Result<OptionType, ConversionError> {
        arbitrary()
    }
}

impl<'a> TryFrom<&'a String> for OptionType {
    type Error = ConversionError;

    fn try_from(value: &'a String) -> (r: Result<OptionType, ConversionError>)
        ensures
            match r {
                Ok(v) => OptionType::parse(value@) == Some(v),
                Err(e) => OptionType::parse(value@) is None && e@ == "invalid value"@,
            },
    {
        OptionType::from_str(value.as_str())
    }
}

/// The contract of this conversion is the one on its `try_from` above;
/// nothing is claimed through the generic specification.
impl<'a> vstd::std_specs::convert::TryFromSpecImpl<&'a String> for OptionType {
    open spec fn obeys_try_from_spec() -> bool {
        false
    }

    open spec fn try_from_spec(value: &'a String) -> Result<OptionType, ConversionError> {
        arbitrary()
    }
}

impl TryFrom<String> for OptionType {
    type Error = ConversionError;

    fn try_from(value: String) -> (r: Result<OptionType, ConversionError>)
        ensures
            match r {
                Ok(v) => OptionType::parse(value@) == Some(v),
                Err(e) => OptionType::parse(value@) is None && e@ == "invalid value"@,
            },
    {
        OptionType::from_str(value.as_str())
    }
}

/// The contract of this conversion is the one on its `try_from` above;
/// nothing is claimed through the generic specification.
impl vstd::std_specs::convert::TryFromSpecImpl<String> for OptionType {
    open spec fn obeys_try_from_spec() -> bool {
        false
    }

    open spec fn try_from_spec(value: String) -> Result<OptionType, ConversionError> {
        arbitrary()
    }
}

/// Settlement method.
///
/// The schema names its values `cash`, `physical`.
#[derive(Clone, Copy, Debug, PartialEq, Eq, Structural, Hash, PartialOrd, Ord)]
pub enum SettlementMethod {
    Cash,
    Physical,
}

impl View for SettlementMethod {
    type V = SettlementMethod;

    open spec fn view(&self) -> SettlementMethod {
        *self
    }
}

impl DeepView for SettlementMethod {
    type V = SettlementMethod;

    open spec fn deep_view(&self) -> SettlementMethod {
        *self
    }
}

impl SettlementMethod {
    /// The schema's name of each value.
    pub open spec fn name(self) -> Seq<char> {
        match self {
            SettlementMethod::Cash => "cash"@,
            SettlementMethod::Physical => "physical"@,
        }
    }

    /// The value that the text `s` names, if any.
    pub open spec fn parse(s: Seq<char>) -> Option<SettlementMethod> {
        if s == "cash"@ {
            Some(SettlementMethod::Cash)
        } else if s == "physical"@ {
            Some(SettlementMethod::Physical)
        } else {
            None
        }
    }

    /// The schema's name of this value.
    pub fn as_str(&self) -> (r: &'static str)
        ensures
            r@ == self.name(),
    {
        match self {
            SettlementMethod::Cash => "cash",
            SettlementMethod::Physical => "physical",
        }
    }

    /// The schema's name of this value, as an owned string.
    pub fn to_string(&self) -> (r: String)
        ensures
            r@ == self.name(),
    {
        self.as_str().to_owned()
    }

    /// The value that `value` names; any other text is refused.
    pub fn from_str(value: &str) -> (r: Result<SettlementMethod, ConversionError>)
        ensures
            match r {
                Ok(v) => SettlementMethod::parse(value@) == Some(v),
                Err(e) => SettlementMethod::parse(value@) is None && e@ == "invalid value"@,
            },
    {
        if str_eq(value, "cash") {
            Ok(SettlementMethod::Cash)
        } else if str_eq(value, "physical") {
            Ok(SettlementMethod::Physical)
        } else {
            Err("invalid value".to_owned())
        }
    }
}

/// Each value is read back from its name, and text that is read as a value
/// is that value's name: `from_str` undoes `to_string`.
pub proof fn lemma_settlement_method_names(v: SettlementMethod)
    ensures
        SettlementMethod::parse(v.name()) == Some(v),
        forall|s: Seq<char>| SettlementMethod::parse(s) == Some(v) ==> s == v.name(),
{
    reveal_strlit("cash");
    reveal_strlit("physical");
    assert("cash"@.len() == 4);
    assert("physical"@.len() == 8);
}

impl std::str::FromStr for SettlementMethod {
    type Err = ConversionError;

    fn from_str(value: &str) -> (r: Result<SettlementMethod, ConversionError>)
        ensures
            match r {
                Ok(v) => SettlementMethod::parse(value@) == Some(v),
                Err(e) => SettlementMethod::parse(value@) is None && e@ == "invalid value"@,
            },
    {
        SettlementMethod::from_str(value)
    }
}

impl FieldInput<SettlementMethod> for SettlementMethod {
    open spec fn converted(&self) -> Result<SettlementMethod, Seq<char>> {
        Ok(*self)
    }

    fn into_field(self) -> (r: Result<SettlementMethod, ConversionError>) {
        Ok(self)
    }
}

impl<'a> FieldInput<SettlementMethod> for &'a str {
    open spec fn converted(&self) -> Result<SettlementMethod, Seq<char>> {
        match SettlementMethod::parse(self@) {
            Some(v) => Ok(v),
            None => Err("invalid value"@),
        }
    }

    fn into_field(self) -> (r: Result<SettlementMethod, ConversionError>) {
        SettlementMethod::from_str(self)
    }
}

impl<'a> FieldInput<SettlementMethod> for &'a String {
    open spec fn converted(&self) -> Result<SettlementMethod, Seq<char>> {
        match SettlementMethod::parse(self@) {
            Some(v) => Ok(v),
            None => Err("invalid value"@),
        }
    }

    fn into_field(self) -> (r: Result<SettlementMethod, ConversionError>) {
        SettlementMethod::from_str(self.as_str())
    }
}

impl FieldInput<SettlementMethod> for String {
    open spec fn converted(&self) -> Result<SettlementMethod, Seq<char>> {
        match SettlementMethod::parse(self@) {
            Some(v) => Ok(v),
            None => Err("invalid value"@),
        }
    }

    fn into_field(self) -> (r: Result<SettlementMethod, ConversionError>) {
        SettlementMethod::from_str(self.as_str())
    }
}

impl<'a> FieldInput<SettlementMethod> for &'a SettlementMethod {
    open spec fn converted(&self) -> Result<SettlementMethod, Seq<char>> {
        Ok(**self)
    }

    fn into_field(self) -> (r: Result<SettlementMethod, ConversionError>) {
        Ok(*self)
    }
}

/// What a builder setter makes of each kind of input for a `SettlementMethod` field:
/// a value (or a reference to one) stands for itself, and text of any of the
/// three string kinds is read exactly as `from_str` reads it: the value that
/// the text names, or `invalid value`.
pub proof fn lemma_settlement_method_inputs(v: SettlementMethod, t: &str, w: &String, u: String)
    ensures
        <SettlementMethod as FieldInput<SettlementMethod>>::converted(&v) == Ok::<SettlementMethod, Seq<char>>(v),
        <&SettlementMethod as FieldInput<SettlementMethod>>::converted(&&v) == Ok::<SettlementMethod, Seq<char>>(v),
        <&str as FieldInput<SettlementMethod>>::converted(&t) matches Ok(x) ==> SettlementMethod::parse(t@) == Some(x),
        <&str as FieldInput<SettlementMethod>>::converted(&t) matches Err(e) ==> SettlementMethod::parse(t@) is None && e == "invalid value"@,
        SettlementMethod::parse(t@) matches Some(x) ==> <&str as FieldInput<SettlementMethod>>::converted(&t) == Ok::<SettlementMethod, Seq<char>>(x),
        <&String as FieldInput<SettlementMethod>>::converted(&w) matches Ok(x) ==> SettlementMethod::parse(w@) == Some(x),
        <&String as FieldInput<SettlementMethod>>::converted(&w) matches Err(e) ==> SettlementMethod::parse(w@) is None && e == "invalid value"@,
        SettlementMethod::parse(w@) matches Some(x) ==> <&String as FieldInput<SettlementMethod>>::converted(&w) == Ok::<SettlementMethod, Seq<char>>(x),
        <String as FieldInput<SettlementMethod>>::converted(&u) matches Ok(x) ==> SettlementMethod::parse(u@) == Some(x),
        <String as FieldInput<SettlementMethod>>::converted(&u) matches Err(e) ==> SettlementMethod::parse(u@) is None && e == "invalid value"@,
        SettlementMethod::parse(u@) matches Some(x) ==> <String as FieldInput<SettlementMethod>>::converted(&u) == Ok::<SettlementMethod, Seq<char>>(x),
{
}

impl<'a> TryFrom<&'a str> for SettlementMethod {
    type Error = ConversionError;

    fn try_from(value: &'a str) -> (r: Result<SettlementMethod, ConversionError>)
        ensures
            match r {
                Ok(v) => SettlementMethod::parse(value@) == Some(v),
                Err(e) => SettlementMethod::parse(value@) is None && e@ == "invalid value"@,
            },
    {
        SettlementMethod::from_str(value)
    }
}

/// The contract of this conversion is the one on its `try_from` above;
/// nothing is claimed through the generic specification.
impl<'a> vstd::std_specs::convert::TryFromSpecImpl<&'a str> for SettlementMethod {
    open spec fn obeys_try_from_spec() -> bool {
        false
    }

    open spec fn try_from_spec(value: &'a str) -> Result<SettlementMethod, ConversionError> {
        arbitrary()
    }
}

impl<'a> TryFrom<&'a String> for SettlementMethod {
    type Error = ConversionError;

    fn try_from(value: &'a String) -> (r: Result<SettlementMethod, ConversionError>)
        ensures
            match r {
                Ok(v) => SettlementMethod::parse(value@) == Some(v),
                Err(e) => SettlementMethod::parse(value@) is None && e@ == "invalid value"@,
            },
    {
        SettlementMethod::from_str(value.as_str())
    }
}

/// The contract of this conversion is the one on its `try_from` above;
/// nothing is claimed through the generic specification.
impl<'a> vstd::std_specs::convert::TryFromSpecImpl<&'a String> for SettlementMethod {
    open spec fn obeys_try_from_spec() -> bool {
        false
    }

    open spec fn try_from_spec(value: &'a String) -> Result<SettlementMethod, ConversionError> {
        arbitrary()
    }
}

impl TryFrom<String> for SettlementMethod {
    type Error = ConversionError;

    fn try_from(value: String) -> (r: Result<SettlementMethod, ConversionError>)
        ensures
            match r {
                Ok(v) => SettlementMethod::parse(value@) == Some(v),
                Err(e) => SettlementMethod::parse(value@) is None && e@ == "invalid value"@,
            },
    {
        SettlementMethod::from_str(value.as_str())
    }
}

/// The contract of this conversion is the one on its `try_from` above;
/// nothing is claimed through the generic specification.
impl vstd::std_specs::convert::TryFromSpecImpl<String> for SettlementMethod {
    open spec fn obeys_try_from_spec() -> bool {
        false
    }

    open spec fn try_from_spec(value: String) -> Result<SettlementMethod, ConversionError> {
        arbitrary()
    }
}

/// Trade direction.
///
/// The schema names its values `buy`, `sell`.
#[derive(Clone, Copy, Debug, PartialEq, Eq, Structural, Hash, PartialOrd, Ord)]
pub enum Side {
    Buy,
    Sell,
}

impl View for Side {
    type V = Side;

    open spec fn view(&self) -> Side {
        *self
    }
}

impl DeepView for Side {
    type V = Side;

    open spec fn deep_view(&self) -> Side {
        *self
    }
}

impl Side {
    /// The schema's name of each value.
    pub open spec fn name(self) -> Seq<char> {
        match self {
            Side::Buy => "buy"@,
            Side::Sell => "sell"@,
        }
    }

    /// The value that the text `s` names, if any.
    pub open spec fn parse(s: Seq<char>) -> Option<Side> {
        if s == "buy"@ {
            Some(Side::Buy)
        } else if s == "sell"@ {
            Some(Side::Sell)
        } else {
            None
        }
    }

    /// The schema's name of this value.
    pub fn as_str(&self) -> (r: &'static str)
        ensures
            r@ == self.name(),
    {
        match self {
            Side::Buy => "buy",
            Side::Sell => "sell",
        }
    }

    /// The schema's name of this value, as an owned string.
    pub fn to_string(&self) -> (r: String)
        ensures
            r@ == self.name(),
    {
        self.as_str().to_owned()
    }

    /// The value that `value` names; any other text is refused.
    pub fn from_str(value: &str) -> (r: Result<Side, ConversionError>)
        ensures
            match r {
                Ok(v) => Side::parse(value@) == Some(v),
                Err(e) => Side::parse(value@) is None && e@ == "invalid value"@,
            },
    {
        if str_eq(value, "buy") {
            Ok(Side::Buy)
        } else if str_eq(value, "sell") {
            Ok(Side::Sell)
        } else {
            Err("invalid value".to_owned())
        }
    }
}

/// Each value is read back from its name, and text that is read as a value
/// is that value's name: `from_str` undoes `to_string`.
pub proof fn lemma_side_names(v: Side)
    ensures
        Side::parse(v.name()) == Some(v),
        forall|s: Seq<char>| Side::parse(s) == Some(v) ==> s == v.name(),
{
    reveal_strlit("buy");
    reveal_strlit("sell");
    assert("buy"@.len() == 3);
    assert("sell"@.len() == 4);
}

impl std::str::FromStr for Side {
    type Err = ConversionError;

    fn from_str(value: &str) -> (r: Result<Side, ConversionError>)
        ensures
            match r {
                Ok(v) => Side::parse(value@) == Some(v),
                Err(e) => Side::parse(value@) is None && e@ == "invalid value"@,
            },
    {
        Side::from_str(value)
    }
}

impl FieldInput<Side> for Side {
    open spec fn converted(&self) -> Result<Side, Seq<char>> {
        Ok(*self)
    }

    fn into_field(self) -> (r: Result<Side, ConversionError>) {
        Ok(self)
    }
}

impl<'a> FieldInput<Side> for &'a str {
    open spec fn converted(&self) -> Result<Side, Seq<char>> {
        match Side::parse(self@) {
            Some(v) => Ok(v),
            None => Err("invalid value"@),
        }
    }

    fn into_field(self) -> (r: Result<Side, ConversionError>) {
        Side::from_str(self)
    }
}

impl<'a> FieldInput<Side> for &'a String {
    open spec fn converted(&self) -> Result<Side, Seq<char>> {
        match Side::parse(self@) {
            Some(v) => Ok(v),
            None => Err("invalid value"@),
        }
    }

    fn into_field(self) -> (r: Result<Side, ConversionError>) {
        Side::from_str(self.as_str())
    }
}

impl FieldInput<Side> for String {
    open spec fn converted(&self) -> Result<Side, Seq<char>> {
        match Side::parse(self@) {
            Some(v) => Ok(v),
            None => Err("invalid value"@),
        }
    }

    fn into_field(self) -> (r: Result<Side, ConversionError>) {
        Side::from_str(self.as_str())
    }
}

impl<'a> FieldInput<Side> for &'a Side {
    open spec fn converted(&self) -> Result<Side, Seq<char>> {
        Ok(**self)
    }

    fn into_field(self) -> (r: Result<Side, ConversionError>) {
        Ok(*self)
    }
}

/// What a builder setter makes of each kind of input for a `Side` field:
/// a value (or a reference to one) stands for itself, and text of any of the
/// three string kinds is read exactly as `from_str` reads it: the value that
/// the text names, or `invalid value`.
pub proof fn lemma_side_inputs(v: Side, t: &str, w: &String, u: String)
    ensures
        <Side as FieldInput<Side>>::converted(&v) == Ok::<Side, Seq<char>>(v),
        <&Side as FieldInput<Side>>::converted(&&v) == Ok::<Side, Seq<char>>(v),
        <&str as FieldInput<Side>>::converted(&t) matches Ok(x) ==> Side::parse(t@) == Some(x),
        <&str as FieldInput<Side>>::converted(&t) matches Err(e) ==> Side::parse(t@) is None && e == "invalid value"@,
        Side::parse(t@) matches Some(x) ==> <&str as FieldInput<Side>>::converted(&t) == Ok::<Side, Seq<char>>(x),
        <&String as FieldInput<Side>>::converted(&w) matches Ok(x) ==> Side::parse(w@) == Some(x),
        <&String as FieldInput<Side>>::converted(&w) matches Err(e) ==> Side::parse(w@) is None && e == "invalid value"@,
        Side::parse(w@) matches Some(x) ==> <&String as FieldInput<Side>>::converted(&w) == Ok::<Side, Seq<char>>(x),
        <String as FieldInput<Side>>::converted(&u) matches Ok(x) ==> Side::parse(u@) == Some(x),
        <String as FieldInput<Side>>::converted(&u) matches Err(e) ==> Side::parse(u@) is None && e == "invalid value"@,
        Side::parse(u@) matches Some(x) ==> <String as FieldInput<Side>>::converted(&u) == Ok::<Side, Seq<char>>(x),
{
}

impl<'a> TryFrom<&'a str> for Side {
    type Error = ConversionError;

    fn try_from(value: &'a str) -> (r: Result<Side, ConversionError>)
        ensures
            match r {
                Ok(v) => Side::parse(value@) == Some(v),
                Err(e) => Side::parse(value@) is None && e@ == "invalid value"@,
            },
    {
        Side::from_str(value)
    }
}

/// The contract of this conversion is the one on its `try_from` above;
/// nothing is claimed through the generic specification.
impl<'a> vstd::std_specs::convert::TryFromSpecImpl<&'a str> for Side {
    open spec fn obeys_try_from_spec() -> bool {
        false
    }

    open spec fn try_from_spec(value: &'a str) -> Result<Side, ConversionError> {
        arbitrary()
    }
}

impl<'a> TryFrom<&'a String> for Side {
    type Error = ConversionError;

    fn try_from(value: &'a String) -> (r: Result<Side, ConversionError>)
        ensures
            match r {
                Ok(v) => Side::parse(value@) == Some(v),
                Err(e) => Side::parse(value@) is None && e@ == "invalid value"@,
            },
    {
        Side::from_str(value.as_str())
    }
}

/// The contract of this conversion is the one on its `try_from` above;
/// nothing is claimed through the generic specification.
impl<'a> vstd::std_specs::convert::TryFromSpecImpl<&'a String> for Side {
    open spec fn obeys_try_from_spec() -> bool {
        false
    }

    open spec fn try_from_spec(value: &'a String) -> Result<Side, ConversionError> {
        arbitrary()
    }
}

impl TryFrom<String> for Side {
    type Error = ConversionError;

    fn try_from(value: String) -> (r: Result<Side, ConversionError>)
        ensures
            match r {
                Ok(v) => Side::parse(value@) == Some(v),
                Err(e) => Side::parse(value@) is None && e@ == "invalid value"@,
            },
    {
        Side::from_str(value.as_str())
    }
}

/// The contract of this conversion is the one on its `try_from` above;
/// nothing is claimed through the generic specification.
impl vstd::std_specs::convert::TryFromSpecImpl<String> for Side {
    open spec fn obeys_try_from_spec() -> bool {
        false
    }

    open spec fn try_from_spec(value: String) -> Result<Side, ConversionError> {
        arbitrary()
    }
}

/// Instrument identifier.
///
/// The text of every value has at least one character.
#[derive(Debug, PartialEq, Eq, Hash, PartialOrd, Ord)]
pub struct Symbol(String);

impl Symbol {
    #[verifier::type_invariant]
    spec fn well_formed(self) -> bool {
        is_symbol(self.0@)
    }
}

impl View for Symbol {
    type V = Seq<char>;

    closed spec fn view(&self) -> Seq<char> {
        self.0@
    }
}

impl DeepView for Symbol {
    type V = Seq<char>;

    open spec fn deep_view(&self) -> Seq<char> {
        self@
    }
}

impl Clone for Symbol {
    fn clone(&self) -> (r: Self)
        ensures
            r@ == self@,
    {
        proof {
            use_type_invariant(self);
        }
        Symbol(self.0.clone())
    }
}

impl Symbol {
    /// Validates `value`: it is accepted exactly when it has at least one character.
    pub fn from_str(value: &str) -> (r: Result<Symbol, ConversionError>)
        ensures
            r is Ok <==> is_symbol(value@),
            r matches Ok(v) ==> v@ == value@,
            r matches Err(e) ==> e@ == symbol_too_short(),
    {
        if value.unicode_len() < 1 {
            return Err("shorter than 1 characters".to_owned());
        }
        Ok(Symbol(value.to_owned()))
    }

    /// The text of this value.
    pub fn as_str(&self) -> (r: &str)
        ensures
            r@ == self@,
            is_symbol(r@),
    {
        proof {
            use_type_invariant(self);
        }
        self.0.as_str()
    }

    /// The text of this value, as an owned string.
    pub fn into_string(self) -> (r: String)
        ensures
            r@ == self@,
            is_symbol(r@),
    {
        proof {
            use_type_invariant(&self);
        }
        self.0
    }
}

impl std::str::FromStr for Symbol {
    type Err = ConversionError;

    fn from_str(value: &str) -> (r: Result<Symbol, ConversionError>)
        ensures
            r is Ok <==> is_symbol(value@),
            r matches Ok(v) ==> v@ == value@,
            r matches Err(e) ==> e@ == symbol_too_short(),
    {
        Symbol::from_str(value)
    }
}

impl FieldInput<Symbol> for Symbol {
    open spec fn converted(&self) -> Result<Seq<char>, Seq<char>> {
        Ok(self@)
    }

    fn into_field(self) -> (r: Result<Symbol, ConversionError>) {
        Ok(self)
    }
}

impl<'a> FieldInput<Symbol> for &'a str {
    open spec fn converted(&self) -> Result<Seq<char>, Seq<char>> {
        if is_symbol(self@) {
            Ok(self@)
        } else {
            Err(symbol_too_short())
        }
    }

    fn into_field(self) -> (r: Result<Symbol, ConversionError>) {
        Symbol::from_str(self)
    }
}

impl<'a> FieldInput<Symbol> for &'a String {
    open spec fn converted(&self) -> Result<Seq<char>, Seq<char>> {
        if is_symbol(self@) {
            Ok(self@)
        } else {
            Err(symbol_too_short())
        }
    }

    fn into_field(self) -> (r: Result<Symbol, ConversionError>) {
        Symbol::from_str(self.as_str())
    }
}

impl FieldInput<Symbol> for String {
    open spec fn converted(&self) -> Result<Seq<char>, Seq<char>> {
        if is_symbol(self@) {
            Ok(self@)
        } else {
            Err(symbol_too_short())
        }
    }

    fn into_field(self) -> (r: Result<Symbol, ConversionError>) {
        Symbol::from_str(self.as_str())
    }
}

impl<'a> FieldInput<Symbol> for &'a Symbol {
    open spec fn converted(&self) -> Result<Seq<char>, Seq<char>> {
        Ok(self@)
    }

    fn into_field(self) -> (r: Result<Symbol, ConversionError>) {
        Ok(self.clone())
    }
}

impl<'a> TryFrom<&'a str> for Symbol {
    type Error = ConversionError;

    fn try_from(value: &'a str) -> (r: Result<Symbol, ConversionError>)
        ensures
            r is Ok <==> is_symbol(value@),
            r matches Ok(v) ==> v@ == value@,
            r matches Err(e) ==> e@ == symbol_too_short(),
    {
        Symbol::from_str(value)
    }
}

/// The contract of this conversion is the one on its `try_from` above;
/// nothing is claimed through the generic specification.
impl<'a> vstd::std_specs::convert::TryFromSpecImpl<&'a str> for Symbol {
    open spec fn obeys_try_from_spec() -> bool {
        false
    }

    open spec fn try_from_spec(value: &'a str) -> Result<Symbol, ConversionError> {
        arbitrary()
    }
}

impl<'a> TryFrom<&'a String> for Symbol {
    type Error = ConversionError;

    fn try_from(value: &'a String) -> (r: Result<Symbol, ConversionError>)
        ensures
            r is Ok <==> is_symbol(value@),
            r matches Ok(v) ==> v@ == value@,
            r matches Err(e) ==> e@ == symbol_too_short(),
    {
        Symbol::from_str(value.as_str())
    }
}

/// The contract of this conversion is the one on its `try_from` above;
/// nothing is claimed through the generic specification.
impl<'a> vstd::std_specs::convert::TryFromSpecImpl<&'a String> for Symbol {
    open spec fn obeys_try_from_spec() -> bool {
        false
    }

    open spec fn try_from_spec(value: &'a String) -> Result<Symbol, ConversionError> {
        arbitrary()
    }
}

impl TryFrom<String> for Symbol {
    type Error = ConversionError;

    fn try_from(value: String) -> (r: Result<Symbol, ConversionError>)
        ensures
            r is Ok <==> is_symbol(value@),
            r matches Ok(v) ==> v@ == value@,
            r matches Err(e) ==> e@ == symbol_too_short(),
    {
        Symbol::from_str(value.as_str())
    }
}

/// The contract of this conversion is the one on its `try_from` above;
/// nothing is claimed through the generic specification.
impl vstd::std_specs::convert::TryFromSpecImpl<String> for Symbol {
    open spec fn obeys_try_from_spec() -> bool {
        false
    }

    open spec fn try_from_spec(value: String) -> Result<Symbol, ConversionError> {
        arbitrary()
    }
}

/// What a builder setter makes of each kind of input for a `Symbol` field:
/// a value (or a reference to one) stands for itself, and text of any of the
/// three string kinds is read exactly as `from_str` reads it: accepted, with
/// its own text, when it has at least one character, refused with `from_str`'s message otherwise.
pub proof fn lemma_symbol_inputs(v: Symbol, o: Option<Symbol>, t: &str, w: &String, u: String)
    ensures
        <Symbol as FieldInput<Symbol>>::converted(&v) == Ok::<Seq<char>, Seq<char>>(v@),
        <&Symbol as FieldInput<Symbol>>::converted(&&v) == Ok::<Seq<char>, Seq<char>>(v@),
        <&str as FieldInput<Symbol>>::converted(&t) is Ok <==> is_symbol(t@),
        <&str as FieldInput<Symbol>>::converted(&t) matches Ok(x) ==> x == t@,
        <&str as FieldInput<Symbol>>::converted(&t) matches Err(e) ==> e == symbol_too_short(),
        <&String as FieldInput<Symbol>>::converted(&w) is Ok <==> is_symbol(w@),
        <&String as FieldInput<Symbol>>::converted(&w) matches Ok(x) ==> x == w@,
        <&String as FieldInput<Symbol>>::converted(&w) matches Err(e) ==> e == symbol_too_short(),
        <String as FieldInput<Symbol>>::converted(&u) is Ok <==> is_symbol(u@),
        <String as FieldInput<Symbol>>::converted(&u) matches Ok(x) ==> x == u@,
        <String as FieldInput<Symbol>>::converted(&u) matches Err(e) ==> e == symbol_too_short(),
{
}

/// Type of the underlying asset.
///
/// The schema names its values `stock`, `index`, `etf`, `commodity`, `currency`, `crypto`.
#[derive(Clone, Copy, Debug, PartialEq, Eq, Structural, Hash, PartialOrd, Ord)]
pub enum UnderlyingType {
    Stock,
    Index,
    Etf,
    Commodity,
    Currency,
    Crypto,
}

impl View for UnderlyingType {
    type V = UnderlyingType;

    open spec fn view(&self) -> UnderlyingType {
        *self
    }
}

impl DeepView for UnderlyingType {
    type V = UnderlyingType;

    open spec fn deep_view(&self) -> UnderlyingType {
        *self
    }
}

impl UnderlyingType {
    /// The schema's name of each value.
    pub open spec fn name(self) -> Seq<char> {
        match self {
            UnderlyingType::Stock => "stock"@,
            UnderlyingType::Index => "index"@,
            UnderlyingType::Etf => "etf"@,
            UnderlyingType::Commodity => "commodity"@,
            UnderlyingType::Currency => "currency"@,
            UnderlyingType::Crypto => "crypto"@,
        }
    }

    /// The value that the text `s` names, if any.
    pub open spec fn parse(s: Seq<char>) -> Option<UnderlyingType> {
        if s == "stock"@ {
            Some(UnderlyingType::Stock)
        } else if s == "index"@ {
            Some(UnderlyingType::Index)
        } else if s == "etf"@ {
            Some(UnderlyingType::Etf)
        } else if s == "commodity"@ {
            Some(UnderlyingType::Commodity)
        } else if s == "currency"@ {
            Some(UnderlyingType::Currency)
        } else if s == "crypto"@ {
            Some(UnderlyingType::Crypto)
        } else {
            None
        }
    }

    /// The schema's name of this value.
    pub fn as_str(&self) -> (r: &'static str)
        ensures
            r@ == self.name(),
    {
        match self {
            UnderlyingType::Stock => "stock",
            UnderlyingType::Index => "index",
            UnderlyingType::Etf => "etf",
            UnderlyingType::Commodity => "commodity",
            UnderlyingType::Currency => "currency",
            UnderlyingType::Crypto => "crypto",
        }
    }

    /// The schema's name of this value, as an owned string.
    pub fn to_string(&self) -> (r: String)
        ensures
            r@ == self.name(),
    {
        self.as_str().to_owned()
    }

    /// The value that `value` names; any other text is refused.
    pub fn from_str(value: &str) -> (r: Result<UnderlyingType, ConversionError>)
        ensures
            match r {
                Ok(v) => UnderlyingType::parse(value@) == Some(v),
                Err(e) => UnderlyingType::parse(value@) is None && e@ == "invalid value"@,
            },
    {
        if str_eq(value, "stock") {
            Ok(UnderlyingType::Stock)
        } else if str_eq(value, "index") {
            Ok(UnderlyingType::Index)
        } else if str_eq(value, "etf") {
            Ok(UnderlyingType::Etf)
        } else if str_eq(value, "commodity") {
            Ok(UnderlyingType::Commodity)
        } else if str_eq(value, "currency") {
            Ok(UnderlyingType::Currency)
        } else if str_eq(value, "crypto") {
            Ok(UnderlyingType::Crypto)
        } else {
            Err("invalid value".to_owned())
        }
    }
}

/// Each value is read back from its name, and text that is read as a value
/// is that value's name: `from_str` undoes `to_string`.
pub proof fn lemma_underlying_type_names(v: UnderlyingType)
    ensures
        UnderlyingType::parse(v.name()) == Some(v),
        forall|s: Seq<char>| UnderlyingType::parse(s) == Some(v) ==> s == v.name(),
{
    reveal_strlit("stock");
    reveal_strlit("index");
    reveal_strlit("etf");
    reveal_strlit("commodity");
    reveal_strlit("currency");
    reveal_strlit("crypto");
    assert("stock"@.len() == 5);
    assert("stock"@[0] == 's');
    assert("index"@.len() == 5);
    assert("index"@[0] == 'i');
    assert("etf"@.len() == 3);
    assert("commodity"@.len() == 9);
    assert("currency"@.len() == 8);
    assert("crypto"@.len() == 6);
}

impl std::str::FromStr for UnderlyingType {
    type Err = ConversionError;

    fn from_str(value: &str) -> (r: Result<UnderlyingType, ConversionError>)
        ensures
            match r {
                Ok(v) => UnderlyingType::parse(value@) == Some(v),
                Err(e) => UnderlyingType::parse(value@) is None && e@ == "invalid value"@,
            },
    {
        UnderlyingType::from_str(value)
    }
}

impl FieldInput<UnderlyingType> for UnderlyingType {
    open spec fn converted(&self) -> Result<UnderlyingType, Seq<char>> {
        Ok(*self)
    }

    fn into_field(self) -> (r: Result<UnderlyingType, ConversionError>) {
        Ok(self)
    }
}

impl<'a> FieldInput<UnderlyingType> for &'a str {
    open spec fn converted(&self) -> Result<UnderlyingType, Seq<char>> {
        match UnderlyingType::parse(self@) {
            Some(v) => Ok(v),
            None => Err("invalid value"@),
        }
    }

    fn into_field(self) -> (r: Result<UnderlyingType, ConversionError>) {
        UnderlyingType::from_str(self)
    }
}

impl<'a> FieldInput<UnderlyingType> for &'a String {
    open spec fn converted(&self) -> Result<UnderlyingType, Seq<char>> {
        match UnderlyingType::parse(self@) {
            Some(v) => Ok(v),
            None => Err("invalid value"@),
        }
    }

    fn into_field(self) -> (r: Result<UnderlyingType, ConversionError>) {
        UnderlyingType::from_str(self.as_str())
    }
}

impl FieldInput<UnderlyingType> for String {
    open spec fn converted(&self) -> Result<UnderlyingType, Seq<char>> {
        match UnderlyingType::parse(self@) {
            Some(v) => Ok(v),
            None => Err("invalid value"@),
        }
    }

    fn into_field(self) -> (r: Result<UnderlyingType, ConversionError>) {
        UnderlyingType::from_str(self.as_str())
    }
}

impl<'a> FieldInput<UnderlyingType> for &'a UnderlyingType {
    open spec fn converted(&self) -> Result<UnderlyingType, Seq<char>> {
        Ok(**self)
    }

    fn into_field(self) -> (r: Result<UnderlyingType, ConversionError>) {
        Ok(*self)
    }
}

/// What a builder setter makes of each kind of input for a `UnderlyingType` field:
/// a value (or a reference to one) stands for itself, and text of any of the
/// three string kinds is read exactly as `from_str` reads it: the value that
/// the text names, or `invalid value`.
pub proof fn lemma_underlying_type_inputs(v: UnderlyingType, t: &str, w: &String, u: String)
    ensures
        <UnderlyingType as FieldInput<UnderlyingType>>::converted(&v) == Ok::<UnderlyingType, Seq<char>>(v),
        <&UnderlyingType as FieldInput<UnderlyingType>>::converted(&&v) == Ok::<UnderlyingType, Seq<char>>(v),
        <&str as FieldInput<UnderlyingType>>::converted(&t) matches Ok(x) ==> UnderlyingType::parse(t@) == Some(x),
        <&str as FieldInput<UnderlyingType>>::converted(&t) matches Err(e) ==> UnderlyingType::parse(t@) is None && e == "invalid value"@,
        UnderlyingType::parse(t@) matches Some(x) ==> <&str as FieldInput<UnderlyingType>>::converted(&t) == Ok::<UnderlyingType, Seq<char>>(x),
        <&String as FieldInput<UnderlyingType>>::converted(&w) matches Ok(x) ==> UnderlyingType::parse(w@) == Some(x),
        <&String as FieldInput<UnderlyingType>>::converted(&w) matches Err(e) ==> UnderlyingType::parse(w@) is None && e == "invalid value"@,
        UnderlyingType::parse(w@) matches Some(x) ==> <&String as FieldInput<UnderlyingType>>::converted(&w) == Ok::<UnderlyingType, Seq<char>>(x),
        <String as FieldInput<UnderlyingType>>::converted(&u) matches Ok(x) ==> UnderlyingType::parse(u@) == Some(x),
        <String as FieldInput<UnderlyingType>>::converted(&u) matches Err(e) ==> UnderlyingType::parse(u@) is None && e == "invalid value"@,
        UnderlyingType::parse(u@) matches Some(x) ==> <String as FieldInput<UnderlyingType>>::converted(&u) == Ok::<UnderlyingType, Seq<char>>(x),
{
}

impl<'a> TryFrom<&'a str> for UnderlyingType {
    type Error = ConversionError;

    fn try_from(value: &'a str) -> (r: Result<UnderlyingType, ConversionError>)
        ensures
            match r {
                Ok(v) => UnderlyingType::parse(value@) == Some(v),
                Err(e) => UnderlyingType::parse(value@) is None && e@ == "invalid value"@,
            },
    {
        UnderlyingType::from_str(value)
    }
}

/// The contract of this conversion is the one on its `try_from` above;
/// nothing is claimed through the generic specification.
impl<'a> vstd::std_specs::convert::TryFromSpecImpl<&'a str> for UnderlyingType {
    open spec fn obeys_try_from_spec() -> bool {
        false
    }

    open spec fn try_from_spec(value: &'a str) -> Result<UnderlyingType, ConversionError> {
        arbitrary()
    }
}

impl<'a> TryFrom<&'a String> for UnderlyingType {
    type Error = ConversionError;

    fn try_from(value: &'a String) -> (r: Result<UnderlyingType, ConversionError>)
        ensures
            match r {
                Ok(v) => UnderlyingType::parse(value@) == Some(v),
                Err(e) => UnderlyingType::parse(value@) is None && e@ == "invalid value"@,
            },
    {
        UnderlyingType::from_str(value.as_str())
    }
}

/// The contract of this conversion is the one on its `try_from` above;
/// nothing is claimed through the generic specification.
impl<'a> vstd::std_specs::convert::TryFromSpecImpl<&'a String> for UnderlyingType {
    open spec fn obeys_try_from_spec() -> bool {
        false
    }

    open spec fn try_from_spec(value: &'a String) -> Result<UnderlyingType, ConversionError> {
        arbitrary()
    }
}

impl TryFrom<String> for UnderlyingType {
    type Error = ConversionError;

    fn try_from(value: String) -> (r: Result<UnderlyingType, ConversionError>)
        ensures
            match r {
                Ok(v) => UnderlyingType::parse(value@) == Some(v),
                Err(e) => UnderlyingType::parse(value@) is None && e@ == "invalid value"@,
            },
    {
        UnderlyingType::from_str(value.as_str())
    }
}

/// The contract of this conversion is the one on its `try_from` above;
/// nothing is claimed through the generic specification.
impl vstd::std_specs::convert::TryFromSpecImpl<String> for UnderlyingType {
    open spec fn obeys_try_from_spec() -> bool {
        false
    }

    open spec fn try_from_spec(value: String) -> Result<UnderlyingType, ConversionError> {
        arbitrary()
    }
}

} // verus!
