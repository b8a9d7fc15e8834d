//! Field types of derivative contract information.

pub use crate::types::error;

use vstd::prelude::*;

use crate::types::error::ConversionError;
use crate::types::field_input::FieldInput;
use crate::types::text::{currency_mismatch, is_currency_code, is_symbol, pattern_found, str_eq, symbol_too_short};

verus! {

/// Currency of the contract value (ISO 4217).
///
/// The text of every value matches `^[A-Z]{3}$`: three upper-case letters.
#[derive(Debug, PartialEq, Eq, Hash, PartialOrd, Ord)]
pub struct DerivativeInfoContractValueCurrency(String);

impl DerivativeInfoContractValueCurrency {
    #[verifier::type_invariant]
    spec fn well_formed(self) -> bool {
        is_currency_code(self.0@)
    }
}

impl View for DerivativeInfoContractValueCurrency {
    type V = Seq<char>;

    closed spec fn view(&self) -> Seq<char> {
        self.0@
    }
}

impl DeepView for DerivativeInfoContractValueCurrency {
    type V = Seq<char>;

    open spec fn deep_view(&self) -> Seq<char> {
        self@
    }
}

impl Clone for DerivativeInfoContractValueCurrency {
    fn clone(&self) -> (r: Self)
        ensures
            r@ == self@,
    {
        proof {
            use_type_invariant(self);
        }
        DerivativeInfoContractValueCurrency(self.0.clone())
    }
}

impl DerivativeInfoContractValueCurrency {
    /// Validates `value`: it is accepted exactly when it matches `^[A-Z]{3}$`: three upper-case letters.
    pub fn from_str(value: &str) -> (r: Result<DerivativeInfoContractValueCurrency, ConversionError>)
        ensures
            r is Ok <==> is_currency_code(value@),
            r matches Ok(v) ==> v@ == value@,
            r matches Err(e) ==> e@ == currency_mismatch(),
    {
        if !pattern_found("^[A-Z]{3}$", value) {
            return Err("doesn't match pattern \"^[A-Z]{3}$\"".to_owned());
        }
        Ok(DerivativeInfoContractValueCurrency(value.to_owned()))
    }

    /// The text of this value.
    pub fn as_str(&self) -> (r: &str)
        ensures
            r@ == self@,
            is_currency_code(r@),
    {
        proof {
            use_type_invariant(self);
        }
        self.0.as_str()
    }

    /// The text of this value, as an owned string.
    pub fn into_string(self) -> (r: String)
        ensures
            r@ == self@,
            is_currency_code(r@),
    {
        proof {
            use_type_invariant(&self);
        }
        self.0
    }
}

impl std::str::FromStr for DerivativeInfoContractValueCurrency {
    type Err = ConversionError;

    fn from_str(value: &str) -> (r: Result<DerivativeInfoContractValueCurrency, ConversionError>)
        ensures
            r is Ok <==> is_currency_code(value@),
            r matches Ok(v) ==> v@ == value@,
            r matches Err(e) ==> e@ == currency_mismatch(),
    {
        DerivativeInfoContractValueCurrency::from_str(value)
    }
}

impl FieldInput<DerivativeInfoContractValueCurrency> for DerivativeInfoContractValueCurrency {
    open spec fn converted(&self) -> Result<Seq<char>, Seq<char>> {
        Ok(self@)
    }

    fn into_field(self) -> (r: Result<DerivativeInfoContractValueCurrency, ConversionError>) {
        Ok(self)
    }
}

impl<'a> FieldInput<DerivativeInfoContractValueCurrency> for &'a str {
    open spec fn converted(&self) -> Result<Seq<char>, Seq<char>> {
        if is_currency_code(self@) {
            Ok(self@)
        } else {
            Err(currency_mismatch())
        }
    }

    fn into_field(self) -> (r: Result<DerivativeInfoContractValueCurrency, ConversionError>) {
        DerivativeInfoContractValueCurrency::from_str(self)
    }
}

impl<'a> FieldInput<DerivativeInfoContractValueCurrency> for &'a String {
    open spec fn converted(&self) -> Result<Seq<char>, Seq<char>> {
        if is_currency_code(self@) {
            Ok(self@)
        } else {
            Err(currency_mismatch())
        }
    }

    fn into_field(self) -> (r: Result<DerivativeInfoContractValueCurrency, ConversionError>) {
        DerivativeInfoContractValueCurrency::from_str(self.as_str())
    }
}

impl FieldInput<DerivativeInfoContractValueCurrency> for String {
    open spec fn converted(&self) -> Result<Seq<char>, Seq<char>> {
        if is_currency_code(self@) {
            Ok(self@)
        } else {
            Err(currency_mismatch())
        }
    }

    fn into_field(self) -> (r: Result<DerivativeInfoContractValueCurrency, ConversionError>) {
        DerivativeInfoContractValueCurrency::from_str(self.as_str())
    }
}

impl<'a> FieldInput<DerivativeInfoContractValueCurrency> for &'a DerivativeInfoContractValueCurrency {
    open spec fn converted(&self) -> Result<Seq<char>, Seq<char>> {
        Ok(self@)
    }

    fn into_field(self) -> (r: Result<DerivativeInfoContractValueCurrency, ConversionError>) {
        Ok(self.clone())
    }
}

impl<'a> TryFrom<&'a str> for DerivativeInfoContractValueCurrency {
    type Error = ConversionError;

    fn try_from(value: &'a str) -> (r: Result<DerivativeInfoContractValueCurrency, ConversionError>)
        ensures
            r is Ok <==> is_currency_code(value@),
            r matches Ok(v) ==> v@ == value@,
            r matches Err(e) ==> e@ == currency_mismatch(),
    {
        DerivativeInfoContractValueCurrency::from_str(value)
    }
}

/// The contract of this conversion is the one on its `try_from` above;
/// nothing is claimed through the generic specification.
impl<'a> vstd::std_specs::convert::TryFromSpecImpl<&'a str> for DerivativeInfoContractValueCurrency {
    open spec fn obeys_try_from_spec() -> bool {
        false
    }

    open spec fn try_from_spec(value: &'a str) -> Result<DerivativeInfoContractValueCurrency, ConversionError> {
        arbitrary()
    }
}

impl<'a> TryFrom<&'a String> for DerivativeInfoContractValueCurrency {
    type Error = ConversionError;

    fn try_from(value: &'a String) -> (r: Result<DerivativeInfoContractValueCurrency, ConversionError>)
        ensures
            r is Ok <==> is_currency_code(value@),
            r matches Ok(v) ==> v@ == value@,
            r matches Err(e) ==> e@ == currency_mismatch(),
    {
        DerivativeInfoContractValueCurrency::from_str(value.as_str())
    }
}

/// The contract of this conversion is the one on its `try_from` above;
/// nothing is claimed through the generic specification.
impl<'a> vstd::std_specs::convert::TryFromSpecImpl<&'a String> for DerivativeInfoContractValueCurrency {
    open spec fn obeys_try_from_spec() -> bool {
        false
    }

    open spec fn try_from_spec(value: &'a String) -> Result<DerivativeInfoContractValueCurrency, ConversionError> {
        arbitrary()
    }
}

impl TryFrom<String> for DerivativeInfoContractValueCurrency {
    type Error = ConversionError;

    fn try_from(value: String) -> (r: Result<DerivativeInfoContractValueCurrency, ConversionError>)
        ensures
            r is Ok <==> is_currency_code(value@),
            r matches Ok(v) ==> v@ == value@,
            r matches Err(e) ==> e@ == currency_mismatch(),
    {
        DerivativeInfoContractValueCurrency::from_str(value.as_str())
    }
}

/// The contract of this conversion is the one on its `try_from` above;
/// nothing is claimed through the generic specification.
impl vstd::std_specs::convert::TryFromSpecImpl<String> for DerivativeInfoContractValueCurrency {
    open spec fn obeys_try_from_spec() -> bool {
        false
    }

    open spec fn try_from_spec(value: String) -> Result<DerivativeInfoContractValueCurrency, ConversionError> {
        arbitrary()
    }
}

/// What a builder setter makes of each kind of input for a `DerivativeInfoContractValueCurrency` field:
/// a value (or a reference to one) stands for itself, and text of any of the
/// three string kinds is read exactly as `from_str` reads it: accepted, with
/// its own text, when it matches `^[A-Z]{3}$`: three upper-case letters, refused with `from_str`'s message otherwise.
pub proof fn lemma_derivative_info_contract_value_currency_inputs(v: DerivativeInfoContractValueCurrency, o: Option<DerivativeInfoContractValueCurrency>, t: &str, w: &String, u: String)
    ensures
        <DerivativeInfoContractValueCurrency as FieldInput<DerivativeInfoContractValueCurrency>>::converted(&v) == Ok::<Seq<char>, Seq<char>>(v@),
        <&DerivativeInfoContractValueCurrency as FieldInput<DerivativeInfoContractValueCurrency>>::converted(&&v) == Ok::<Seq<char>, Seq<char>>(v@),
        <&str as FieldInput<DerivativeInfoContractValueCurrency>>::converted(&t) is Ok <==> is_currency_code(t@),
        <&str as FieldInput<DerivativeInfoContractValueCurrency>>::converted(&t) matches Ok(x) ==> x == t@,
        <&str as FieldInput<DerivativeInfoContractValueCurrency>>::converted(&t) matches Err(e) ==> e == currency_mismatch(),
        <&String as FieldInput<DerivativeInfoContractValueCurrency>>::converted(&w) is Ok <==> is_currency_code(w@),
        <&String as FieldInput<DerivativeInfoContractValueCurrency>>::converted(&w) matches Ok(x) ==> x == w@,
        <&String as FieldInput<DerivativeInfoContractValueCurrency>>::converted(&w) matches Err(e) ==> e == currency_mismatch(),
        <String as FieldInput<DerivativeInfoContractValueCurrency>>::converted(&u) is Ok <==> is_currency_code(u@),
        <String as FieldInput<DerivativeInfoContractValueCurrency>>::converted(&u) matches Ok(x) ==> x == u@,
        <String as FieldInput<DerivativeInfoContractValueCurrency>>::converted(&u) matches Err(e) ==> e == currency_mismatch(),
{
}

/// Settlement currency (ISO 4217).
///
/// The text of every value matches `^[A-Z]{3}$`: three upper-case letters.
#[derive(Debug, PartialEq, Eq, Hash, PartialOrd, Ord)]
pub struct DerivativeInfoSettlementCurrency(String);

impl DerivativeInfoSettlementCurrency {
    #[verifier::type_invariant]
    spec fn well_formed(self) -> bool {
        is_currency_code(self.0@)
    }
}

impl View for DerivativeInfoSettlementCurrency {
    type V = Seq<char>;

    closed spec fn view(&self) -> Seq<char> {
        self.0@
    }
}

impl DeepView for DerivativeInfoSettlementCurrency {
    type V = Seq<char>;

    open spec fn deep_view(&self) -> Seq<char> {
        self@
    }
}

impl Clone for DerivativeInfoSettlementCurrency {
    fn clone(&self) -> (r: Self)
        ensures
            r@ == self@,
    {
        proof {
            use_type_invariant(self);
        }
        DerivativeInfoSettlementCurrency(self.0.clone())
    }
}

impl DerivativeInfoSettlementCurrency {
    /// Validates `value`: it is accepted exactly when it matches `^[A-Z]{3}$`: three upper-case letters.
    pub fn from_str(value: &str) -> (r: Result<DerivativeInfoSettlementCurrency, ConversionError>)
        ensures
            r is Ok <==> is_currency_code(value@),
            r matches Ok(v) ==> v@ == value@,
            r matches Err(e) ==> e@ == currency_mismatch(),
    {
        if !pattern_found("^[A-Z]{3}$", value) {
            return Err("doesn't match pattern \"^[A-Z]{3}$\"".to_owned());
        }
        Ok(DerivativeInfoSettlementCurrency(value.to_owned()))
    }

    /// The text of this value.
    pub fn as_str(&self) -> (r: &str)
        ensures
            r@ == self@,
            is_currency_code(r@),
    {
        proof {
            use_type_invariant(self);
        }
        self.0.as_str()
    }

    /// The text of this value, as an owned string.
    pub fn into_string(self) -> (r: String)
        ensures
            r@ == self@,
            is_currency_code(r@),
    {
        proof {
            use_type_invariant(&self);
        }
        self.0
    }
}

impl std::str::FromStr for DerivativeInfoSettlementCurrency {
    type Err = ConversionError;

    fn from_str(value: &str) -> (r: Result<DerivativeInfoSettlementCurrency, ConversionError>)
        ensures
            r is Ok <==> is_currency_code(value@),
            r matches Ok(v) ==> v@ == value@,
            r matches Err(e) ==> e@ == currency_mismatch(),
    {
        DerivativeInfoSettlementCurrency::from_str(value)
    }
}

impl FieldInput<DerivativeInfoSettlementCurrency> for DerivativeInfoSettlementCurrency {
    open spec fn converted(&self) -> Result<Seq<char>, Seq<char>> {
        Ok(self@)
    }

    fn into_field(self) -> (r: Result<DerivativeInfoSettlementCurrency, ConversionError>) {
        Ok(self)
    }
}

impl<'a> FieldInput<DerivativeInfoSettlementCurrency> for &'a str {
    open spec fn converted(&self) -> Result<Seq<char>, Seq<char>> {
        if is_currency_code(self@) {
            Ok(self@)
        } else {
            Err(currency_mismatch())
        }
    }

    fn into_field(self) -> (r: Result<DerivativeInfoSettlementCurrency, ConversionError>) {
        DerivativeInfoSettlementCurrency::from_str(self)
    }
}

impl<'a> FieldInput<DerivativeInfoSettlementCurrency> for &'a String {
    open spec fn converted(&self) -> Result<Seq<char>, Seq<char>> {
        if is_currency_code(self@) {
            Ok(self@)
        } else {
            Err(currency_mismatch())
        }
    }

    fn into_field(self) -> (r: Result<DerivativeInfoSettlementCurrency, ConversionError>) {
        DerivativeInfoSettlementCurrency::from_str(self.as_str())
    }
}

impl FieldInput<DerivativeInfoSettlementCurrency> for String {
    open spec fn converted(&self) -> Result<Seq<char>, Seq<char>> {
        if is_currency_code(self@) {
            Ok(self@)
        } else {
            Err(currency_mismatch())
        }
    }

    fn into_field(self) -> (r: Result<DerivativeInfoSettlementCurrency, ConversionError>) {
        DerivativeInfoSettlementCurrency::from_str(self.as_str())
    }
}

impl<'a> FieldInput<DerivativeInfoSettlementCurrency> for &'a DerivativeInfoSettlementCurrency {
    open spec fn converted(&self) -> Result<Seq<char>, Seq<char>> {
        Ok(self@)
    }

    fn into_field(self) -> (r: Result<DerivativeInfoSettlementCurrency, ConversionError>) {
        Ok(self.clone())
    }
}

impl<'a> TryFrom<&'a str> for DerivativeInfoSettlementCurrency {
    type Error = ConversionError;

    fn try_from(value: &'a str) -> (r: Result<DerivativeInfoSettlementCurrency, ConversionError>)
        ensures
            r is Ok <==> is_currency_code(value@),
            r matches Ok(v) ==> v@ == value@,
            r matches Err(e) ==> e@ == currency_mismatch(),
    {
        DerivativeInfoSettlementCurrency::from_str(value)
    }
}

/// The contract of this conversion is the one on its `try_from` above;
/// nothing is claimed through the generic specification.
impl<'a> vstd::std_specs::convert::TryFromSpecImpl<&'a str> for DerivativeInfoSettlementCurrency {
    open spec fn obeys_try_from_spec() -> bool {
        false
    }

    open spec fn try_from_spec(value: &'a str) -> Result<DerivativeInfoSettlementCurrency, ConversionError> {
        arbitrary()
    }
}

impl<'a> TryFrom<&'a String> for DerivativeInfoSettlementCurrency {
    type Error = ConversionError;

    fn try_from(value: &'a String) -> (r: Result<DerivativeInfoSettlementCurrency, ConversionError>)
        ensures
            r is Ok <==> is_currency_code(value@),
            r matches Ok(v) ==> v@ == value@,
            r matches Err(e) ==> e@ == currency_mismatch(),
    {
        DerivativeInfoSettlementCurrency::from_str(value.as_str())
    }
}

/// The contract of this conversion is the one on its `try_from` above;
/// nothing is claimed through the generic specification.
impl<'a> vstd::std_specs::convert::TryFromSpecImpl<&'a String> for DerivativeInfoSettlementCurrency {
    open spec fn obeys_try_from_spec() -> bool {
        false
    }

    open spec fn try_from_spec(value: &'a String) -> Result<DerivativeInfoSettlementCurrency, ConversionError> {
        arbitrary()
    }
}

impl TryFrom<String> for DerivativeInfoSettlementCurrency {
    type Error = ConversionError;

    fn try_from(value: String) -> (r: Result<DerivativeInfoSettlementCurrency, ConversionError>)
        ensures
            r is Ok <==> is_currency_code(value@),
            r matches Ok(v) ==> v@ == value@,
            r matches Err(e) ==> e@ == currency_mismatch(),
    {
        DerivativeInfoSettlementCurrency::from_str(value.as_str())
    }
}

/// The contract of this conversion is the one on its `try_from` above;
/// nothing is claimed through the generic specification.
impl vstd::std_specs::convert::TryFromSpecImpl<String> for DerivativeInfoSettlementCurrency {
    open spec fn obeys_try_from_spec() -> bool {
        false
    }

    open spec fn try_from_spec(value: String) -> Result<DerivativeInfoSettlementCurrency, ConversionError> {
        arbitrary()
    }
}

/// What a builder setter makes of each kind of input for a `DerivativeInfoSettlementCurrency` field:
/// a value (or a reference to one) stands for itself, and text of any of the
/// three string kinds is read exactly as `from_str` reads it: accepted, with
/// its own text, when it matches `^[A-Z]{3}$`: three upper-case letters, refused with `from_str`'s message otherwise.
pub proof fn lemma_derivative_info_settlement_currency_inputs(v: DerivativeInfoSettlementCurrency, o: Option<DerivativeInfoSettlementCurrency>, t: &str, w: &String, u: String)
    ensures
        <DerivativeInfoSettlementCurrency as FieldInput<DerivativeInfoSettlementCurrency>>::converted(&v) == Ok::<Seq<char>, Seq<char>>(v@),
        <&DerivativeInfoSettlementCurrency as FieldInput<DerivativeInfoSettlementCurrency>>::converted(&&v) == Ok::<Seq<char>, Seq<char>>(v@),
        <&str as FieldInput<DerivativeInfoSettlementCurrency>>::converted(&t) is Ok <==> is_currency_code(t@),
        <&str as FieldInput<DerivativeInfoSettlementCurrency>>::converted(&t) matches Ok(x) ==> x == t@,
        <&str as FieldInput<DerivativeInfoSettlementCurrency>>::converted(&t) matches Err(e) ==> e == currency_mismatch(),
        <&String as FieldInput<DerivativeInfoSettlementCurrency>>::converted(&w) is Ok <==> is_currency_code(w@),
        <&String as FieldInput<DerivativeInfoSettlementCurrency>>::converted(&w) matches Ok(x) ==> x == w@,
        <&String as FieldInput<DerivativeInfoSettlementCurrency>>::converted(&w) matches Err(e) ==> e == currency_mismatch(),
        <String as FieldInput<DerivativeInfoSettlementCurrency>>::converted(&u) is Ok <==> is_currency_code(u@),
        <String as FieldInput<DerivativeInfoSettlementCurrency>>::converted(&u) matches Ok(x) ==> x == u@,
        <String as FieldInput<DerivativeInfoSettlementCurrency>>::converted(&u) matches Err(e) ==> e == currency_mismatch(),
{
}

/// Settlement method.
///
/// The schema names its values `cash`, `physical`.
#[derive(Clone, Copy, Debug, PartialEq, Eq, Structural, Hash, PartialOrd, Ord)]
pub enum DerivativeInfoSettlementMethod {
    Cash,
    Physical,
}

impl View for DerivativeInfoSettlementMethod {
    type V = DerivativeInfoSettlementMethod;

    open spec fn view(&self) -> DerivativeInfoSettlementMethod {
        *self
    }
}

impl DeepView for DerivativeInfoSettlementMethod {
    type V = DerivativeInfoSettlementMethod;

    open spec fn deep_view(&self) -> DerivativeInfoSettlementMethod {
        *self
    }
}

impl DerivativeInfoSettlementMethod {
    /// The schema's name of each value.
    pub open spec fn name(self) -> Seq<char> {
        match self {
            DerivativeInfoSettlementMethod::Cash => "cash"@,
            DerivativeInfoSettlementMethod::Physical => "physical"@,
        }
    }

    /// The value that the text `s` names, if any.
    pub open spec fn parse(s: Seq<char>) -> Option<DerivativeInfoSettlementMethod> {
        if s == "cash"@ {
            Some(DerivativeInfoSettlementMethod::Cash)
        } else if s == "physical"@ {
            Some(DerivativeInfoSettlementMethod::Physical)
        } else {
            None
        }
    }

    /// The schema's name of this value.
    pub fn as_str(&self) -> (r: &'static str)
        ensures
            r@ == self.name(),
    {
        match self {
            DerivativeInfoSettlementMethod::Cash => "cash",
            DerivativeInfoSettlementMethod::Physical => "physical",
        }
    }

    /// The schema's name of this value, as an owned string.
    pub fn to_string(&self) -> (r: String)
        ensures
            r@ == self.name(),
    {
        self.as_str().to_owned()
    }

    /// The value that `value` names; any other text is refused.
    pub fn from_str(value: &str) -> (r: Result<DerivativeInfoSettlementMethod, ConversionError>)
        ensures
            match r {
                Ok(v) => DerivativeInfoSettlementMethod::parse(value@) == Some(v),
                Err(e) => DerivativeInfoSettlementMethod::parse(value@) is None && e@ == "invalid value"@,
            },
    {
        if str_eq(value, "cash") {
            Ok(DerivativeInfoSettlementMethod::Cash)
        } else if str_eq(value, "physical") {
            Ok(DerivativeInfoSettlementMethod::Physical)
        } else {
            Err("invalid value".to_owned())
        }
    }
}

/// Each value is read back from its name, and text that is read as a value
/// is that value's name: `from_str` undoes `to_string`.
pub proof fn lemma_derivative_info_settlement_method_names(v: DerivativeInfoSettlementMethod)
    ensures
        DerivativeInfoSettlementMethod::parse(v.name()) == Some(v),
        forall|s: Seq<char>| DerivativeInfoSettlementMethod::parse(s) == Some(v) ==> s == v.name(),
{
    reveal_strlit("cash");
    reveal_strlit("physical");
    assert("cash"@.len() == 4);
    assert("physical"@.len() == 8);
}

impl std::str::FromStr for DerivativeInfoSettlementMethod {
    type Err = ConversionError;

    fn from_str(value: &str) -> (r: Result<DerivativeInfoSettlementMethod, ConversionError>)
        ensures
            match r {
                Ok(v) => DerivativeInfoSettlementMethod::parse(value@) == Some(v),
                Err(e) => DerivativeInfoSettlementMethod::parse(value@) is None && e@ == "invalid value"@,
            },
    {
        DerivativeInfoSettlementMethod::from_str(value)
    }
}

impl FieldInput<DerivativeInfoSettlementMethod> for DerivativeInfoSettlementMethod {
    open spec fn converted(&self) -> Result<DerivativeInfoSettlementMethod, Seq<char>> {
        Ok(*self)
    }

    fn into_field(self) -> (r: Result<DerivativeInfoSettlementMethod, ConversionError>) {
        Ok(self)
    }
}

impl<'a> FieldInput<DerivativeInfoSettlementMethod> for &'a str {
    open spec fn converted(&self) -> Result<DerivativeInfoSettlementMethod, Seq<char>> {
        match DerivativeInfoSettlementMethod::parse(self@) {
            Some(v) => Ok(v),
            None => Err("invalid value"@),
        }
    }

    fn into_field(self) -> (r: Result<DerivativeInfoSettlementMethod, ConversionError>) {
        DerivativeInfoSettlementMethod::from_str(self)
    }
}

impl<'a> FieldInput<DerivativeInfoSettlementMethod> for &'a String {
    open spec fn converted(&self) -> Result<DerivativeInfoSettlementMethod, Seq<char>> {
        match DerivativeInfoSettlementMethod::parse(self@) {
            Some(v) => Ok(v),
            None => Err("invalid value"@),
        }
    }

    fn into_field(self) -> (r: Result<DerivativeInfoSettlementMethod, ConversionError>) {
        DerivativeInfoSettlementMethod::from_str(self.as_str())
    }
}

impl FieldInput<DerivativeInfoSettlementMethod> for String {
    open spec fn converted(&self) -> Result<DerivativeInfoSettlementMethod, Seq<char>> {
        match DerivativeInfoSettlementMethod::parse(self@) {
            Some(v) => Ok(v),
            None => Err("invalid value"@),
        }
    }

    fn into_field(self) -> (r: Result<DerivativeInfoSettlementMethod, ConversionError>) {
        DerivativeInfoSettlementMethod::from_str(self.as_str())
    }
}

impl<'a> FieldInput<DerivativeInfoSettlementMethod> for &'a DerivativeInfoSettlementMethod {
    open spec fn converted(&self) -> Result<DerivativeInfoSettlementMethod, Seq<char>> {
        Ok(**self)
    }

    fn into_field(self) -> (r: Result<DerivativeInfoSettlementMethod, ConversionError>) {
        Ok(*self)
    }
}

/// What a builder setter makes of each kind of input for a `DerivativeInfoSettlementMethod` field:
/// a value (or a reference to one) stands for itself, and text of any of the
/// three string kinds is read exactly as `from_str` reads it: the value that
/// the text names, or `invalid value`.
pub proof fn lemma_derivative_info_settlement_method_inputs(v: DerivativeInfoSettlementMethod, t: &str, w: &String, u: String)
    ensures
        <DerivativeInfoSettlementMethod as FieldInput<DerivativeInfoSettlementMethod>>::converted(&v) == Ok::<DerivativeInfoSettlementMethod, Seq<char>>(v),
        <&DerivativeInfoSettlementMethod as FieldInput<DerivativeInfoSettlementMethod>>::converted(&&v) == Ok::<DerivativeInfoSettlementMethod, Seq<char>>(v),
        <&str as FieldInput<DerivativeInfoSettlementMethod>>::converted(&t) matches Ok(x) ==> DerivativeInfoSettlementMethod::parse(t@) == Some(x),
        <&str as FieldInput<DerivativeInfoSettlementMethod>>::converted(&t) matches Err(e) ==> DerivativeInfoSettlementMethod::parse(t@) is None && e == "invalid value"@,
        DerivativeInfoSettlementMethod::parse(t@) matches Some(x) ==> <&str as FieldInput<DerivativeInfoSettlementMethod>>::converted(&t) == Ok::<DerivativeInfoSettlementMethod, Seq<char>>(x),
        <&String as FieldInput<DerivativeInfoSettlementMethod>>::converted(&w) matches Ok(x) ==> DerivativeInfoSettlementMethod::parse(w@) == Some(x),
        <&String as FieldInput<DerivativeInfoSettlementMethod>>::converted(&w) matches Err(e) ==> DerivativeInfoSettlementMethod::parse(w@) is None && e == "invalid value"@,
        DerivativeInfoSettlementMethod::parse(w@) matches Some(x) ==> <&String as FieldInput<DerivativeInfoSettlementMethod>>::converted(&w) == Ok::<DerivativeInfoSettlementMethod, Seq<char>>(x),
        <String as FieldInput<DerivativeInfoSettlementMethod>>::converted(&u) matches Ok(x) ==> DerivativeInfoSettlementMethod::parse(u@) == Some(x),
        <String as FieldInput<DerivativeInfoSettlementMethod>>::converted(&u) matches Err(e) ==> DerivativeInfoSettlementMethod::parse(u@) is None && e == "invalid value"@,
        DerivativeInfoSettlementMethod::parse(u@) matches Some(x) ==> <String as FieldInput<DerivativeInfoSettlementMethod>>::converted(&u) == Ok::<DerivativeInfoSettlementMethod, Seq<char>>(x),
{
}

impl<'a> TryFrom<&'a str> for DerivativeInfoSettlementMethod {
    type Error = ConversionError;

    fn try_from(value: &'a str) -> (r: Result<DerivativeInfoSettlementMethod, ConversionError>)
        ensures
            match r {
                Ok(v) => DerivativeInfoSettlementMethod::parse(value@) == Some(v),
                Err(e) => DerivativeInfoSettlementMethod::parse(value@) is None && e@ == "invalid value"@,
            },
    {
        DerivativeInfoSettlementMethod::from_str(value)
    }
}

/// The contract of this conversion is the one on its `try_from` above;
/// nothing is claimed through the generic specification.
impl<'a> vstd::std_specs::convert::TryFromSpecImpl<&'a str> for DerivativeInfoSettlementMethod {
    open spec fn obeys_try_from_spec() -> bool {
        false
    }

    open spec fn try_from_spec(value: &'a str) -> Result<DerivativeInfoSettlementMethod, ConversionError> {
        arbitrary()
    }
}

impl<'a> TryFrom<&'a String> for DerivativeInfoSettlementMethod {
    type Error = ConversionError;

    fn try_from(value: &'a String) -> (r: Result<DerivativeInfoSettlementMethod, ConversionError>)
        ensures
            match r {
                Ok(v) => DerivativeInfoSettlementMethod::parse(value@) == Some(v),
                Err(e) => DerivativeInfoSettlementMethod::parse(value@) is None && e@ == "invalid value"@,
            },
    {
        DerivativeInfoSettlementMethod::from_str(value.as_str())
    }
}

/// The contract of this conversion is the one on its `try_from` above;
/// nothing is claimed through the generic specification.
impl<'a> vstd::std_specs::convert::TryFromSpecImpl<&'a String> for DerivativeInfoSettlementMethod {
    open spec fn obeys_try_from_spec() -> bool {
        false
    }

    open spec fn try_from_spec(value: &'a String) -> Result<DerivativeInfoSettlementMethod, ConversionError> {
        arbitrary()
    }
}

impl TryFrom<String> for DerivativeInfoSettlementMethod {
    type Error = ConversionError;

    fn try_from(value: String) -> (r: Result<DerivativeInfoSettlementMethod, ConversionError>)
        ensures
            match r {
                Ok(v) => DerivativeInfoSettlementMethod::parse(value@) == Some(v),
                Err(e) => DerivativeInfoSettlementMethod::parse(value@) is None && e@ == "invalid value"@,
            },
    {
        DerivativeInfoSettlementMethod::from_str(value.as_str())
    }
}

/// The contract of this conversion is the one on its `try_from` above;
/// nothing is claimed through the generic specification.
impl vstd::std_specs::convert::TryFromSpecImpl<String> for DerivativeInfoSettlementMethod {
    open spec fn obeys_try_from_spec() -> bool {
        false
    }

    open spec fn try_from_spec(value: String) -> Result<DerivativeInfoSettlementMethod, ConversionError> {
        arbitrary()
    }
}

/// Identifier of the underlying instrument.
///
/// The text of every value has at least one character.
#[derive(Debug, PartialEq, Eq, Hash, PartialOrd, Ord)]
pub struct DerivativeInfoUnderlyingSymbol(String);

impl DerivativeInfoUnderlyingSymbol {
    #[verifier::type_invariant]
    spec fn well_formed(self) -> bool {
        is_symbol(self.0@)
    }
}

impl View for DerivativeInfoUnderlyingSymbol {
    type V = Seq<char>;

    closed spec fn view(&self) -> Seq<char> {
        self.0@
    }
}

impl DeepView for DerivativeInfoUnderlyingSymbol {
    type V = Seq<char>;

    open spec fn deep_view(&self) -> Seq<char> {
        self@
    }
}

impl Clone for DerivativeInfoUnderlyingSymbol {
    fn clone(&self) -> (r: Self)
        ensures
            r@ == self@,
    {
        proof {
            use_type_invariant(self);
        }
        DerivativeInfoUnderlyingSymbol(self.0.clone())
    }
}

impl DerivativeInfoUnderlyingSymbol {
    /// Validates `value`: it is accepted exactly when it has at least one character.
    pub fn from_str(value: &str) -> (r: Result<DerivativeInfoUnderlyingSymbol, ConversionError>)
        ensures
            r is Ok <==> is_symbol(value@),
            r matches Ok(v) ==> v@ == value@,
            r matches Err(e) ==> e@ == symbol_too_short(),
    {
        if value.unicode_len() < 1 {
            return Err("shorter than 1 characters".to_owned());
        }
        Ok(DerivativeInfoUnderlyingSymbol(value.to_owned()))
    }

    /// The text of this value.
    pub fn as_str(&self) -> (r: &str)
        ensures
            r@ == self@,
            is_symbol(r@),
    {
        proof {
            use_type_invariant(self);
        }
        self.0.as_str()
    }

    /// The text of this value, as an owned string.
    pub fn into_string(self) -> (r: String)
        ensures
            r@ == self@,
            is_symbol(r@),
    {
        proof {
            use_type_invariant(&self);
        }
        self.0
    }
}

impl std::str::FromStr for DerivativeInfoUnderlyingSymbol {
    type Err = ConversionError;

    fn from_str(value: &str) -> (r: Result<DerivativeInfoUnderlyingSymbol, ConversionError>)
        ensures
            r is Ok <==> is_symbol(value@),
            r matches Ok(v) ==> v@ == value@,
            r matches Err(e) ==> e@ == symbol_too_short(),
    {
        DerivativeInfoUnderlyingSymbol::from_str(value)
    }
}

impl FieldInput<DerivativeInfoUnderlyingSymbol> for DerivativeInfoUnderlyingSymbol {
    open spec fn converted(&self) -> Result<Seq<char>, Seq<char>> {
        Ok(self@)
    }

    fn into_field(self) -> (r: Result<DerivativeInfoUnderlyingSymbol, ConversionError>) {
        Ok(self)
    }
}

impl<'a> FieldInput<DerivativeInfoUnderlyingSymbol> for &'a str {
    open spec fn converted(&self) -> Result<Seq<char>, Seq<char>> {
        if is_symbol(self@) {
            Ok(self@)
        } else {
            Err(symbol_too_short())
        }
    }

    fn into_field(self) -> (r: Result<DerivativeInfoUnderlyingSymbol, ConversionError>) {
        DerivativeInfoUnderlyingSymbol::from_str(self)
    }
}

impl<'a> FieldInput<DerivativeInfoUnderlyingSymbol> for &'a String {
    open spec fn converted(&self) -> Result<Seq<char>, Seq<char>> {
        if is_symbol(self@) {
            Ok(self@)
        } else {
            Err(symbol_too_short())
        }
    }

    fn into_field(self) -> (r: Result<DerivativeInfoUnderlyingSymbol, ConversionError>) {
        DerivativeInfoUnderlyingSymbol::from_str(self.as_str())
    }
}

impl FieldInput<DerivativeInfoUnderlyingSymbol> for String {
    open spec fn converted(&self) -> Result<Seq<char>, Seq<char>> {
        if is_symbol(self@) {
            Ok(self@)
        } else {
            Err(symbol_too_short())
        }
    }

    fn into_field(self) -> (r: Result<DerivativeInfoUnderlyingSymbol, ConversionError>) {
        DerivativeInfoUnderlyingSymbol::from_str(self.as_str())
    }
}

impl<'a> FieldInput<DerivativeInfoUnderlyingSymbol> for &'a DerivativeInfoUnderlyingSymbol {
    open spec fn converted(&self) -> Result<Seq<char>, Seq<char>> {
        Ok(self@)
    }

    fn into_field(self) -> (r: Result<DerivativeInfoUnderlyingSymbol, ConversionError>) {
        Ok(self.clone())
    }
}

impl<'a> TryFrom<&'a str> for DerivativeInfoUnderlyingSymbol {
    type Error = ConversionError;

    fn try_from(value: &'a str) -> (r: Result<DerivativeInfoUnderlyingSymbol, ConversionError>)
        ensures
            r is Ok <==> is_symbol(value@),
            r matches Ok(v) ==> v@ == value@,
            r matches Err(e) ==> e@ == symbol_too_short(),
    {
        DerivativeInfoUnderlyingSymbol::from_str(value)
    }
}

/// The contract of this conversion is the one on its `try_from` above;
/// nothing is claimed through the generic specification.
impl<'a> vstd::std_specs::convert::TryFromSpecImpl<&'a str> for DerivativeInfoUnderlyingSymbol {
    open spec fn obeys_try_from_spec() -> bool {
        false
    }

    open spec fn try_from_spec(value: &'a str) -> Result<DerivativeInfoUnderlyingSymbol, ConversionError> {
        arbitrary()
    }
}

impl<'a> TryFrom<&'a String> for DerivativeInfoUnderlyingSymbol {
    type Error = ConversionError;

    fn try_from(value: &'a String) -> (r: Result<DerivativeInfoUnderlyingSymbol, ConversionError>)
        ensures
            r is Ok <==> is_symbol(value@),
            r matches Ok(v) ==> v@ == value@,
            r matches Err(e) ==> e@ == symbol_too_short(),
    {
        DerivativeInfoUnderlyingSymbol::from_str(value.as_str())
    }
}

/// The contract of this conversion is the one on its `try_from` above;
/// nothing is claimed through the generic specification.
impl<'a> vstd::std_specs::convert::TryFromSpecImpl<&'a String> for DerivativeInfoUnderlyingSymbol {
    open spec fn obeys_try_from_spec() -> bool {
        false
    }

    open spec fn try_from_spec(value: &'a String) -> Result<DerivativeInfoUnderlyingSymbol, ConversionError> {
        arbitrary()
    }
}

impl TryFrom<String> for DerivativeInfoUnderlyingSymbol {
    type Error = ConversionError;

    fn try_from(value: String) -> (r: Result<DerivativeInfoUnderlyingSymbol, ConversionError>)
        ensures
            r is Ok <==> is_symbol(value@),
            r matches Ok(v) ==> v@ == value@,
            r matches Err(e) ==> e@ == symbol_too_short(),
    {
        DerivativeInfoUnderlyingSymbol::from_str(value.as_str())
    }
}

/// The contract of this conversion is the one on its `try_from` above;
/// nothing is claimed through the generic specification.
impl vstd::std_specs::convert::TryFromSpecImpl<String> for DerivativeInfoUnderlyingSymbol {
    open spec fn obeys_try_from_spec() -> bool {
        false
    }

    open spec fn try_from_spec(value: String) -> Result<DerivativeInfoUnderlyingSymbol, ConversionError> {
        arbitrary()
    }
}

/// What a builder setter makes of each kind of input for a `DerivativeInfoUnderlyingSymbol` field:
/// a value (or a reference to one) stands for itself, and text of any of the
/// three string kinds is read exactly as `from_str` reads it: accepted, with
/// its own text, when it has at least one character, refused with `from_str`'s message otherwise.
pub proof fn lemma_derivative_info_underlying_symbol_inputs(v: DerivativeInfoUnderlyingSymbol, o: Option<DerivativeInfoUnderlyingSymbol>, t: &str, w: &String, u: String)
    ensures
        <DerivativeInfoUnderlyingSymbol as FieldInput<DerivativeInfoUnderlyingSymbol>>::converted(&v) == Ok::<Seq<char>, Seq<char>>(v@),
        <&DerivativeInfoUnderlyingSymbol as FieldInput<DerivativeInfoUnderlyingSymbol>>::converted(&&v) == Ok::<Seq<char>, Seq<char>>(v@),
        <&str as FieldInput<DerivativeInfoUnderlyingSymbol>>::converted(&t) is Ok <==> is_symbol(t@),
        <&str as FieldInput<DerivativeInfoUnderlyingSymbol>>::converted(&t) matches Ok(x) ==> x == t@,
        <&str as FieldInput<DerivativeInfoUnderlyingSymbol>>::converted(&t) matches Err(e) ==> e == symbol_too_short(),
        <&String as FieldInput<DerivativeInfoUnderlyingSymbol>>::converted(&w) is Ok <==> is_symbol(w@),
        <&String as FieldInput<DerivativeInfoUnderlyingSymbol>>::converted(&w) matches Ok(x) ==> x == w@,
        <&String as FieldInput<DerivativeInfoUnderlyingSymbol>>::converted(&w) matches Err(e) ==> e == symbol_too_short(),
        <String as FieldInput<DerivativeInfoUnderlyingSymbol>>::converted(&u) is Ok <==> is_symbol(u@),
        <String as FieldInput<DerivativeInfoUnderlyingSymbol>>::converted(&u) matches Ok(x) ==> x == u@,
        <String as FieldInput<DerivativeInfoUnderlyingSymbol>>::converted(&u) matches Err(e) ==> e == symbol_too_short(),
{
}

/// Type of the underlying asset.
///
/// The schema names its values `stock`, `index`, `etf`, `commodity`, `currency`, `crypto`.
#[derive(Clone, Copy, Debug, PartialEq, Eq, Structural, Hash, PartialOrd, Ord)]
pub enum DerivativeInfoUnderlyingType {
    Stock,
    Index,
    Etf,
    Commodity,
    Currency,
    Crypto,
}

impl View for DerivativeInfoUnderlyingType {
    type V = DerivativeInfoUnderlyingType;

    open spec fn view(&self) -> DerivativeInfoUnderlyingType {
        *self
    }
}

impl DeepView for DerivativeInfoUnderlyingType {
    type V = DerivativeInfoUnderlyingType;

    open spec fn deep_view(&self) -> DerivativeInfoUnderlyingType {
        *self
    }
}

impl DerivativeInfoUnderlyingType {
    /// The schema's name of each value.
    pub open spec fn name(self) -> Seq<char> {
        match self {
            DerivativeInfoUnderlyingType::Stock => "stock"@,
            DerivativeInfoUnderlyingType::Index => "index"@,
            DerivativeInfoUnderlyingType::Etf => "etf"@,
            DerivativeInfoUnderlyingType::Commodity => "commodity"@,
            DerivativeInfoUnderlyingType::Currency => "currency"@,
            DerivativeInfoUnderlyingType::Crypto => "crypto"@,
        }
    }

    /// The value that the text `s` names, if any.
    pub open spec fn parse(s: Seq<char>) -> Option<DerivativeInfoUnderlyingType> {
        if s == "stock"@ {
            Some(DerivativeInfoUnderlyingType::Stock)
        } else if s == "index"@ {
            Some(DerivativeInfoUnderlyingType::Index)
        } else if s == "etf"@ {
            Some(DerivativeInfoUnderlyingType::Etf)
        } else if s == "commodity"@ {
            Some(DerivativeInfoUnderlyingType::Commodity)
        } else if s == "currency"@ {
            Some(DerivativeInfoUnderlyingType::Currency)
        } else if s == "crypto"@ {
            Some(DerivativeInfoUnderlyingType::Crypto)
        } else {
            None
        }
    }

    /// The schema's name of this value.
    pub fn as_str(&self) -> (r: &'static str)
        ensures
            r@ == self.name(),
    {
        match self {
            DerivativeInfoUnderlyingType::Stock => "stock",
            DerivativeInfoUnderlyingType::Index => "index",
            DerivativeInfoUnderlyingType::Etf => "etf",
            DerivativeInfoUnderlyingType::Commodity => "commodity",
            DerivativeInfoUnderlyingType::Currency => "currency",
            DerivativeInfoUnderlyingType::Crypto => "crypto",
        }
    }

    /// The schema's name of this value, as an owned string.
    pub fn to_string(&self) -> (r: String)
        ensures
            r@ == self.name(),
    {
        self.as_str().to_owned()
    }

    /// The value that `value` names; any other text is refused.
    pub fn from_str(value: &str) -> (r: Result<DerivativeInfoUnderlyingType, ConversionError>)
        ensures
            match r {
                Ok(v) => DerivativeInfoUnderlyingType::parse(value@) == Some(v),
                Err(e) => DerivativeInfoUnderlyingType::parse(value@) is None && e@ == "invalid value"@,
            },
    {
        if str_eq(value, "stock") {
            Ok(DerivativeInfoUnderlyingType::Stock)
        } else if str_eq(value, "index") {
            Ok(DerivativeInfoUnderlyingType::Index)
        } else if str_eq(value, "etf") {
            Ok(DerivativeInfoUnderlyingType::Etf)
        } else if str_eq(value, "commodity") {
            Ok(DerivativeInfoUnderlyingType::Commodity)
        } else if str_eq(value, "currency") {
            Ok(DerivativeInfoUnderlyingType::Currency)
        } else if str_eq(value, "crypto") {
            Ok(DerivativeInfoUnderlyingType::Crypto)
        } else {
            Err("invalid value".to_owned())
        }
    }
}

/// Each value is read back from its name, and text that is read as a value
/// is that value's name: `from_str` undoes `to_string`.
pub proof fn lemma_derivative_info_underlying_type_names(v: DerivativeInfoUnderlyingType)
    ensures
        DerivativeInfoUnderlyingType::parse(v.name()) == Some(v),
        forall|s: Seq<char>| DerivativeInfoUnderlyingType::parse(s) == Some(v) ==> s == v.name(),
{
    reveal_strlit("stock");
    reveal_strlit("index");
    reveal_strlit("etf");
    reveal_strlit("commodity");
    reveal_strlit("currency");
    reveal_strlit("crypto");
    assert("stock"@.len() == 5);
    assert("stock"@[0] == 's');
    assert("index"@.len() == 5);
    assert("index"@[0] == 'i');
    assert("etf"@.len() == 3);
    assert("commodity"@.len() == 9);
    assert("currency"@.len() == 8);
    assert("crypto"@.len() == 6);
}

impl std::str::FromStr for DerivativeInfoUnderlyingType {
    type Err = ConversionError;

    fn from_str(value: &str) -> (r: Result<DerivativeInfoUnderlyingType, ConversionError>)
        ensures
            match r {
                Ok(v) => DerivativeInfoUnderlyingType::parse(value@) == Some(v),
                Err(e) => DerivativeInfoUnderlyingType::parse(value@) is None && e@ == "invalid value"@,
            },
    {
        DerivativeInfoUnderlyingType::from_str(value)
    }
}

impl FieldInput<DerivativeInfoUnderlyingType> for DerivativeInfoUnderlyingType {
    open spec fn converted(&self) -> Result<DerivativeInfoUnderlyingType, Seq<char>> {
        Ok(*self)
    }

    fn into_field(self) -> (r: Result<DerivativeInfoUnderlyingType, ConversionError>) {
        Ok(self)
    }
}

impl<'a> FieldInput<DerivativeInfoUnderlyingType> for &'a str {
    open spec fn converted(&self) -> Result<DerivativeInfoUnderlyingType, Seq<char>> {
        match DerivativeInfoUnderlyingType::parse(self@) {
            Some(v) => Ok(v),
            None => Err("invalid value"@),
        }
    }

    fn into_field(self) -> (r: Result<DerivativeInfoUnderlyingType, ConversionError>) {
        DerivativeInfoUnderlyingType::from_str(self)
    }
}

impl<'a> FieldInput<DerivativeInfoUnderlyingType> for &'a String {
    open spec fn converted(&self) -> Result<DerivativeInfoUnderlyingType, Seq<char>> {
        match DerivativeInfoUnderlyingType::parse(self@) {
            Some(v) => Ok(v),
            None => Err("invalid value"@),
        }
    }

    fn into_field(self) -> (r: Result<DerivativeInfoUnderlyingType, ConversionError>) {
        DerivativeInfoUnderlyingType::from_str(self.as_str())
    }
}

impl FieldInput<DerivativeInfoUnderlyingType> for String {
    open spec fn converted(&self) -> Result<DerivativeInfoUnderlyingType, Seq<char>> {
        match DerivativeInfoUnderlyingType::parse(self@) {
            Some(v) => Ok(v),
            None => Err("invalid value"@),
        }
    }

    fn into_field(self) -> (r: Result<DerivativeInfoUnderlyingType, ConversionError>) {
        DerivativeInfoUnderlyingType::from_str(self.as_str())
    }
}

impl<'a> FieldInput<DerivativeInfoUnderlyingType> for &'a DerivativeInfoUnderlyingType {
    open spec fn converted(&self) -> Result<DerivativeInfoUnderlyingType, Seq<char>> {
        Ok(**self)
    }

    fn into_field(self) -> (r: Result<DerivativeInfoUnderlyingType, ConversionError>) {
        Ok(*self)
    }
}

/// What a builder setter makes of each kind of input for a `DerivativeInfoUnderlyingType` field:
/// a value (or a reference to one) stands for itself, and text of any of the
/// three string kinds is read exactly as `from_str` reads it: the value that
/// the text names, or `invalid value`.
pub proof fn lemma_derivative_info_underlying_type_inputs(v: DerivativeInfoUnderlyingType, t: &str, w: &String, u: String)
    ensures
        <DerivativeInfoUnderlyingType as FieldInput<DerivativeInfoUnderlyingType>>::converted(&v) == Ok::<DerivativeInfoUnderlyingType, Seq<char>>(v),
        <&DerivativeInfoUnderlyingType as FieldInput<DerivativeInfoUnderlyingType>>::converted(&&v) == Ok::<DerivativeInfoUnderlyingType, Seq<char>>(v),
        <&str as FieldInput<DerivativeInfoUnderlyingType>>::converted(&t) matches Ok(x) ==> DerivativeInfoUnderlyingType::parse(t@) == Some(x),
        <&str as FieldInput<DerivativeInfoUnderlyingType>>::converted(&t) matches Err(e) ==> DerivativeInfoUnderlyingType::parse(t@) is None && e == "invalid value"@,
        DerivativeInfoUnderlyingType::parse(t@) matches Some(x) ==> <&str as FieldInput<DerivativeInfoUnderlyingType>>::converted(&t) == Ok::<DerivativeInfoUnderlyingType, Seq<char>>(x),
        <&String as FieldInput<DerivativeInfoUnderlyingType>>::converted(&w) matches Ok(x) ==> DerivativeInfoUnderlyingType::parse(w@) == Some(x),
        <&String as FieldInput<DerivativeInfoUnderlyingType>>::converted(&w) matches Err(e) ==> DerivativeInfoUnderlyingType::parse(w@) is None && e == "invalid value"@,
        DerivativeInfoUnderlyingType::parse(w@) matches Some(x) ==> <&String as FieldInput<DerivativeInfoUnderlyingType>>::converted(&w) == Ok::<DerivativeInfoUnderlyingType, Seq<char>>(x),
        <String as FieldInput<DerivativeInfoUnderlyingType>>::converted(&u) matches Ok(x) ==> DerivativeInfoUnderlyingType::parse(u@) == Some(x),
        <String as FieldInput<DerivativeInfoUnderlyingType>>::converted(&u) matches Err(e) ==> DerivativeInfoUnderlyingType::parse(u@) is None && e == "invalid value"@,
        DerivativeInfoUnderlyingType::parse(u@) matches Some(x) ==> <String as FieldInput<DerivativeInfoUnderlyingType>>::converted(&u) == Ok::<DerivativeInfoUnderlyingType, Seq<char>>(x),
{
}

impl<'a> TryFrom<&'a str> for DerivativeInfoUnderlyingType {
    type Error = ConversionError;

    fn try_from(value: &'a str) -> (r: Result<DerivativeInfoUnderlyingType, ConversionError>)
        ensures
            match r {
                Ok(v) => DerivativeInfoUnderlyingType::parse(value@) == Some(v),
                Err(e) => DerivativeInfoUnderlyingType::parse(value@) is None && e@ == "invalid value"@,
            },
    {
        DerivativeInfoUnderlyingType::from_str(value)
    }
}

/// The contract of this conversion is the one on its `try_from` above;
/// nothing is claimed through the generic specification.
impl<'a> vstd::std_specs::convert::TryFromSpecImpl<&'a str> for DerivativeInfoUnderlyingType {
    open spec fn obeys_try_from_spec() -> bool {
        false
    }

    open spec fn try_from_spec(value: &'a str) -> Result<DerivativeInfoUnderlyingType, ConversionError> {
        arbitrary()
    }
}

impl<'a> TryFrom<&'a String> for DerivativeInfoUnderlyingType {
    type Error = ConversionError;

    fn try_from(value: &'a String) -> (r: Result<DerivativeInfoUnderlyingType, ConversionError>)
        ensures
            match r {
                Ok(v) => DerivativeInfoUnderlyingType::parse(value@) == Some(v),
                Err(e) => DerivativeInfoUnderlyingType::parse(value@) is None && e@ == "invalid value"@,
            },
    {
        DerivativeInfoUnderlyingType::from_str(value.as_str())
    }
}

/// The contract of this conversion is the one on its `try_from` above;
/// nothing is claimed through the generic specification.
impl<'a> vstd::std_specs::convert::TryFromSpecImpl<&'a String> for DerivativeInfoUnderlyingType {
    open spec fn obeys_try_from_spec() -> bool {
        false
    }

    open spec fn try_from_spec(value: &'a String) -> Result<DerivativeInfoUnderlyingType, ConversionError> {
        arbitrary()
    }
}

impl TryFrom<String> for DerivativeInfoUnderlyingType {
    type Error = ConversionError;

    fn try_from(value: String) -> (r: Result<DerivativeInfoUnderlyingType, ConversionError>)
        ensures
            match r {
                Ok(v) => DerivativeInfoUnderlyingType::parse(value@) == Some(v),
                Err(e) => DerivativeInfoUnderlyingType::parse(value@) is None && e@ == "invalid value"@,
            },
    {
        DerivativeInfoUnderlyingType::from_str(value.as_str())
    }
}

/// The contract of this conversion is the one on its `try_from` above;
/// nothing is claimed through the generic specification.
impl vstd::std_specs::convert::TryFromSpecImpl<String> for DerivativeInfoUnderlyingType {
    open spec fn obeys_try_from_spec() -> bool {
        false
    }

    open spec fn try_from_spec(value: String) -> Result<DerivativeInfoUnderlyingType, ConversionError> {
        arbitrary()
    }
}

} // verus!
