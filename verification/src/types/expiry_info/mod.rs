//! Expiry information of futures and options.

pub mod builder;

pub use crate::types::error;

use vstd::prelude::*;

use crate::types::error::ConversionError;
use crate::types::field_input::FieldInput;
use crate::types::text::{calendar_date_mismatch, expiry_series_mismatch, is_calendar_date, is_expiry_series, pattern_found};

verus! {

/// Expiration date (YYYY-MM-DD).
///
/// The text of every value matches `^\d{4}-\d{2}-\d{2}$`: the shape YYYY-MM-DD.
#[derive(Debug, PartialEq, Eq, Hash, PartialOrd, Ord)]
pub struct ExpiryInfoExpirationDate(String);

impl ExpiryInfoExpirationDate {
    #[verifier::type_invariant]
    spec fn well_formed(self) -> bool {
        is_calendar_date(self.0@)
    }
}

impl View for ExpiryInfoExpirationDate {
    type V = Seq<char>;

    closed spec fn view(&self) -> Seq<char> {
        self.0@
    }
}

impl DeepView for ExpiryInfoExpirationDate {
    type V = Seq<char>;

    open spec fn deep_view(&self) -> Seq<char> {
        self@
    }
}

impl Clone for ExpiryInfoExpirationDate {
    fn clone(&self) -> (r: Self)
        ensures
            r@ == self@,
    {
        proof {
            use_type_invariant(self);
        }
        ExpiryInfoExpirationDate(self.0.clone())
    }
}

impl ExpiryInfoExpirationDate {
    /// Validates `value`: it is accepted exactly when it matches `^\d{4}-\d{2}-\d{2}$`: the shape YYYY-MM-DD.
    pub fn from_str(value: &str) -> (r: Result<ExpiryInfoExpirationDate, ConversionError>)
        ensures
            r is Ok <==> is_calendar_date(value@),
            r matches Ok(v) ==> v@ == value@,
            r matches Err(e) ==> e@ == calendar_date_mismatch(),
    {
        if !pattern_found("^\\d{4}-\\d{2}-\\d{2}$", value) {
            return Err("doesn't match pattern \"^\\d{4}-\\d{2}-\\d{2}$\"".to_owned());
        }
        Ok(ExpiryInfoExpirationDate(value.to_owned()))
    }

    /// The text of this value.
    pub fn as_str(&self) -> (r: &str)
        ensures
            r@ == self@,
            is_calendar_date(r@),
    {
        proof {
            use_type_invariant(self);
        }
        self.0.as_str()
    }

    /// The text of this value, as an owned string.
    pub fn into_string(self) -> (r: String)
        ensures
            r@ == self@,
            is_calendar_date(r@),
    {
        proof {
            use_type_invariant(&self);
        }
        self.0
    }
}

impl std::str::FromStr for ExpiryInfoExpirationDate {
    type Err = ConversionError;

    fn from_str(value: &str) -> (r: Result<ExpiryInfoExpirationDate, ConversionError>)
        ensures
            r is Ok <==> is_calendar_date(value@),
            r matches Ok(v) ==> v@ == value@,
            r matches Err(e) ==> e@ == calendar_date_mismatch(),
    {
        ExpiryInfoExpirationDate::from_str(value)
    }
}

impl FieldInput<ExpiryInfoExpirationDate> for ExpiryInfoExpirationDate {
    open spec fn converted(&self) -> Result<Seq<char>, Seq<char>> {
        Ok(self@)
    }

    fn into_field(self) -> (r: Result<ExpiryInfoExpirationDate, ConversionError>) {
        Ok(self)
    }
}

impl<'a> FieldInput<ExpiryInfoExpirationDate> for &'a str {
    open spec fn converted(&self) -> Result<Seq<char>, Seq<char>> {
        if is_calendar_date(self@) {
            Ok(self@)
        } else {
            Err(calendar_date_mismatch())
        }
    }

    fn into_field(self) -> (r: Result<ExpiryInfoExpirationDate, ConversionError>) {
        ExpiryInfoExpirationDate::from_str(self)
    }
}

impl<'a> FieldInput<ExpiryInfoExpirationDate> for &'a String {
    open spec fn converted(&self) -> Result<Seq<char>, Seq<char>> {
        if is_calendar_date(self@) {
            Ok(self@)
        } else {
            Err(calendar_date_mismatch())
        }
    }

    fn into_field(self) -> (r: Result<ExpiryInfoExpirationDate, ConversionError>) {
        ExpiryInfoExpirationDate::from_str(self.as_str())
    }
}

impl FieldInput<ExpiryInfoExpirationDate> for String {
    open spec fn converted(&self) -> Result<Seq<char>, Seq<char>> {
        if is_calendar_date(self@) {
            Ok(self@)
        } else {
            Err(calendar_date_mismatch())
        }
    }

    fn into_field(self) -> (r: Result<ExpiryInfoExpirationDate, ConversionError>) {
        ExpiryInfoExpirationDate::from_str(self.as_str())
    }
}

impl<'a> FieldInput<ExpiryInfoExpirationDate> for &'a ExpiryInfoExpirationDate {
    open spec fn converted(&self) -> Result<Seq<char>, Seq<char>> {
        Ok(self@)
    }

    fn into_field(self) -> (r: Result<ExpiryInfoExpirationDate, ConversionError>) {
        Ok(self.clone())
    }
}

impl<'a> TryFrom<&'a str> for ExpiryInfoExpirationDate {
    type Error = ConversionError;

    fn try_from(value: &'a str) -> (r: Result<ExpiryInfoExpirationDate, ConversionError>)
        ensures
            r is Ok <==> is_calendar_date(value@),
            r matches Ok(v) ==> v@ == value@,
            r matches Err(e) ==> e@ == calendar_date_mismatch(),
    {
        ExpiryInfoExpirationDate::from_str(value)
    }
}

/// The contract of this conversion is the one on its `try_from` above;
/// nothing is claimed through the generic specification.
impl<'a> vstd::std_specs::convert::TryFromSpecImpl<&'a str> for ExpiryInfoExpirationDate {
    open spec fn obeys_try_from_spec() -> bool {
        false
    }

    open spec fn try_from_spec(value: &'a str) -> Result<ExpiryInfoExpirationDate, ConversionError> {
        arbitrary()
    }
}

impl<'a> TryFrom<&'a String> for ExpiryInfoExpirationDate {
    type Error = ConversionError;

    fn try_from(value: &'a String) -> (r: Result<ExpiryInfoExpirationDate, ConversionError>)
        ensures
            r is Ok <==> is_calendar_date(value@),
            r matches Ok(v) ==> v@ == value@,
            r matches Err(e) ==> e@ == calendar_date_mismatch(),
    {
        ExpiryInfoExpirationDate::from_str(value.as_str())
    }
}

/// The contract of this conversion is the one on its `try_from` above;
/// nothing is claimed through the generic specification.
impl<'a> vstd::std_specs::convert::TryFromSpecImpl<&'a String> for ExpiryInfoExpirationDate {
    open spec fn obeys_try_from_spec() -> bool {
        false
    }

    open spec fn try_from_spec(value: &'a String) -> Result<ExpiryInfoExpirationDate, ConversionError> {
        arbitrary()
    }
}

impl TryFrom<String> for ExpiryInfoExpirationDate {
    type Error = ConversionError;

    fn try_from(value: String) -> (r: Result<ExpiryInfoExpirationDate, ConversionError>)
        ensures
            r is Ok <==> is_calendar_date(value@),
            r matches Ok(v) ==> v@ == value@,
            r matches Err(e) ==> e@ == calendar_date_mismatch(),
    {
        ExpiryInfoExpirationDate::from_str(value.as_str())
    }
}

/// The contract of this conversion is the one on its `try_from` above;
/// nothing is claimed through the generic specification.
impl vstd::std_specs::convert::TryFromSpecImpl<String> for ExpiryInfoExpirationDate {
    open spec fn obeys_try_from_spec() -> bool {
        false
    }

    open spec fn try_from_spec(value: String) -> Result<ExpiryInfoExpirationDate, ConversionError> {
        arbitrary()
    }
}

/// What a builder setter makes of each kind of input for a `ExpiryInfoExpirationDate` field:
/// a value (or a reference to one) stands for itself, and text of any of the
/// three string kinds is read exactly as `from_str` reads it: accepted, with
/// its own text, when it matches `^\d{4}-\d{2}-\d{2}$`: the shape YYYY-MM-DD, refused with `from_str`'s message otherwise.
pub proof fn lemma_expiry_info_expiration_date_inputs(v: ExpiryInfoExpirationDate, o: Option<ExpiryInfoExpirationDate>, t: &str, w: &String, u: String)
    ensures
        <ExpiryInfoExpirationDate as FieldInput<ExpiryInfoExpirationDate>>::converted(&v) == Ok::<Seq<char>, Seq<char>>(v@),
        <&ExpiryInfoExpirationDate as FieldInput<ExpiryInfoExpirationDate>>::converted(&&v) == Ok::<Seq<char>, Seq<char>>(v@),
        <&str as FieldInput<ExpiryInfoExpirationDate>>::converted(&t) is Ok <==> is_calendar_date(t@),
        <&str as FieldInput<ExpiryInfoExpirationDate>>::converted(&t) matches Ok(x) ==> x == t@,
        <&str as FieldInput<ExpiryInfoExpirationDate>>::converted(&t) matches Err(e) ==> e == calendar_date_mismatch(),
        <&String as FieldInput<ExpiryInfoExpirationDate>>::converted(&w) is Ok <==> is_calendar_date(w@),
        <&String as FieldInput<ExpiryInfoExpirationDate>>::converted(&w) matches Ok(x) ==> x == w@,
        <&String as FieldInput<ExpiryInfoExpirationDate>>::converted(&w) matches Err(e) ==> e == calendar_date_mismatch(),
        <String as FieldInput<ExpiryInfoExpirationDate>>::converted(&u) is Ok <==> is_calendar_date(u@),
        <String as FieldInput<ExpiryInfoExpirationDate>>::converted(&u) matches Ok(x) ==> x == u@,
        <String as FieldInput<ExpiryInfoExpirationDate>>::converted(&u) matches Err(e) ==> e == calendar_date_mismatch(),
{
}

/// Expiry series (YYYY-MM, YYYY-Www or YYYY-MM-DD).
///
/// The text of every value matches `^\d{4}(-\d{2}|-W\d{2}|-\d{2}-\d{2})$`: one of the shapes YYYY-MM, YYYY-Www, YYYY-MM-DD.
#[derive(Debug, PartialEq, Eq, Hash, PartialOrd, Ord)]
pub struct ExpiryInfoExpiry(String);

impl ExpiryInfoExpiry {
    #[verifier::type_invariant]
    spec fn well_formed(self) -> bool {
        is_expiry_series(self.0@)
    }
}

impl View for ExpiryInfoExpiry {
    type V = Seq<char>;

    closed spec fn view(&self) -> Seq<char> {
        self.0@
    }
}

impl DeepView for ExpiryInfoExpiry {
    type V = Seq<char>;

    open spec fn deep_view(&self) -> Seq<char> {
        self@
    }
}

impl Clone for ExpiryInfoExpiry {
    fn clone(&self) -> (r: Self)
        ensures
            r@ == self@,
    {
        proof {
            use_type_invariant(self);
        }
        ExpiryInfoExpiry(self.0.clone())
    }
}

impl ExpiryInfoExpiry {
    /// Validates `value`: it is accepted exactly when it matches `^\d{4}(-\d{2}|-W\d{2}|-\d{2}-\d{2})$`: one of the shapes YYYY-MM, YYYY-Www, YYYY-MM-DD.
    pub fn from_str(value: &str) -> (r: Result<ExpiryInfoExpiry, ConversionError>)
        ensures
            r is Ok <==> is_expiry_series(value@),
            r matches Ok(v) ==> v@ == value@,
            r matches Err(e) ==> e@ == expiry_series_mismatch(),
    {
        if !pattern_found("^\\d{4}(-\\d{2}|-W\\d{2}|-\\d{2}-\\d{2})$", value) {
            return Err("doesn't match pattern \"^\\d{4}(-\\d{2}|-W\\d{2}|-\\d{2}-\\d{2})$\"".to_owned());
        }
        Ok(ExpiryInfoExpiry(value.to_owned()))
    }

    /// The text of this value.
    pub fn as_str(&self) -> (r: &str)
        ensures
            r@ == self@,
            is_expiry_series(r@),
    {
        proof {
            use_type_invariant(self);
        }
        self.0.as_str()
    }

    /// The text of this value, as an owned string.
    pub fn into_string(self) -> (r: String)
        ensures
            r@ == self@,
            is_expiry_series(r@),
    {
        proof {
            use_type_invariant(&self);
        }
        self.0
    }
}

impl std::str::FromStr for ExpiryInfoExpiry {
    type Err = ConversionError;

    fn from_str(value: &str) -> (r: Result<ExpiryInfoExpiry, ConversionError>)
        ensures
            r is Ok <==> is_expiry_series(value@),
            r matches Ok(v) ==> v@ == value@,
            r matches Err(e) ==> e@ == expiry_series_mismatch(),
    {
        ExpiryInfoExpiry::from_str(value)
    }
}

impl FieldInput<ExpiryInfoExpiry> for ExpiryInfoExpiry {
    open spec fn converted(&self) -> Result<Seq<char>, Seq<char>> {
        Ok(self@)
    }

    fn into_field(self) -> (r: Result<ExpiryInfoExpiry, ConversionError>) {
        Ok(self)
    }
}

impl<'a> FieldInput<ExpiryInfoExpiry> for &'a str {
    open spec fn converted(&self) -> Result<Seq<char>, Seq<char>> {
        if is_expiry_series(self@) {
            Ok(self@)
        } else {
            Err(expiry_series_mismatch())
        }
    }

    fn into_field(self) -> (r: Result<ExpiryInfoExpiry, ConversionError>) {
        ExpiryInfoExpiry::from_str(self)
    }
}

impl<'a> FieldInput<ExpiryInfoExpiry> for &'a String {
    open spec fn converted(&self) -> Result<Seq<char>, Seq<char>> {
        if is_expiry_series(self@) {
            Ok(self@)
        } else {
            Err(expiry_series_mismatch())
        }
    }

    fn into_field(self) -> (r: Result<ExpiryInfoExpiry, ConversionError>) {
        ExpiryInfoExpiry::from_str(self.as_str())
    }
}

impl FieldInput<ExpiryInfoExpiry> for String {
    open spec fn converted(&self) -> Result<Seq<char>, Seq<char>> {
        if is_expiry_series(self@) {
            Ok(self@)
        } else {
            Err(expiry_series_mismatch())
        }
    }

    fn into_field(self) -> (r: Result<ExpiryInfoExpiry, ConversionError>) {
        ExpiryInfoExpiry::from_str(self.as_str())
    }
}

impl<'a> FieldInput<ExpiryInfoExpiry> for &'a ExpiryInfoExpiry {
    open spec fn converted(&self) -> Result<Seq<char>, Seq<char>> {
        Ok(self@)
    }

    fn into_field(self) -> (r: Result<ExpiryInfoExpiry, ConversionError>) {
        Ok(self.clone())
    }
}

impl<'a> TryFrom<&'a str> for ExpiryInfoExpiry {
    type Error = ConversionError;

    fn try_from(value: &'a str) -> (r: Result<ExpiryInfoExpiry, ConversionError>)
        ensures
            r is Ok <==> is_expiry_series(value@),
            r matches Ok(v) ==> v@ == value@,
            r matches Err(e) ==> e@ == expiry_series_mismatch(),
    {
        ExpiryInfoExpiry::from_str(value)
    }
}

/// The contract of this conversion is the one on its `try_from` above;
/// nothing is claimed through the generic specification.
impl<'a> vstd::std_specs::convert::TryFromSpecImpl<&'a str> for ExpiryInfoExpiry {
    open spec fn obeys_try_from_spec() -> bool {
        false
    }

    open spec fn try_from_spec(value: &'a str) -> Result<ExpiryInfoExpiry, ConversionError> {
        arbitrary()
    }
}

impl<'a> TryFrom<&'a String> for ExpiryInfoExpiry {
    type Error = ConversionError;

    fn try_from(value: &'a String) -> (r: Result<ExpiryInfoExpiry, ConversionError>)
        ensures
            r is Ok <==> is_expiry_series(value@),
            r matches Ok(v) ==> v@ == value@,
            r matches Err(e) ==> e@ == expiry_series_mismatch(),
    {
        ExpiryInfoExpiry::from_str(value.as_str())
    }
}

/// The contract of this conversion is the one on its `try_from` above;
/// nothing is claimed through the generic specification.
impl<'a> vstd::std_specs::convert::TryFromSpecImpl<&'a String> for ExpiryInfoExpiry {
    open spec fn obeys_try_from_spec() -> bool {
        false
    }

    open spec fn try_from_spec(value: &'a String) -> Result<ExpiryInfoExpiry, ConversionError> {
        arbitrary()
    }
}

impl TryFrom<String> for ExpiryInfoExpiry {
    type Error = ConversionError;

    fn try_from(value: String) -> (r: Result<ExpiryInfoExpiry, ConversionError>)
        ensures
            r is Ok <==> is_expiry_series(value@),
            r matches Ok(v) ==> v@ == value@,
            r matches Err(e) ==> e@ == expiry_series_mismatch(),
    {
        ExpiryInfoExpiry::from_str(value.as_str())
    }
}

/// The contract of this conversion is the one on its `try_from` above;
/// nothing is claimed through the generic specification.
impl vstd::std_specs::convert::TryFromSpecImpl<String> for ExpiryInfoExpiry {
    open spec fn obeys_try_from_spec() -> bool {
        false
    }

    open spec fn try_from_spec(value: String) -> Result<ExpiryInfoExpiry, ConversionError> {
        arbitrary()
    }
}

/// What a builder setter makes of each kind of input for a `ExpiryInfoExpiry` field:
/// a value (or a reference to one) stands for itself, and text of any of the
/// three string kinds is read exactly as `from_str` reads it: accepted, with
/// its own text, when it matches `^\d{4}(-\d{2}|-W\d{2}|-\d{2}-\d{2})$`: one of the shapes YYYY-MM, YYYY-Www, YYYY-MM-DD, refused with `from_str`'s message otherwise.
pub proof fn lemma_expiry_info_expiry_inputs(v: ExpiryInfoExpiry, o: Option<ExpiryInfoExpiry>, t: &str, w: &String, u: String)
    ensures
        <ExpiryInfoExpiry as FieldInput<ExpiryInfoExpiry>>::converted(&v) == Ok::<Seq<char>, Seq<char>>(v@),
        <&ExpiryInfoExpiry as FieldInput<ExpiryInfoExpiry>>::converted(&&v) == Ok::<Seq<char>, Seq<char>>(v@),
        <&str as FieldInput<ExpiryInfoExpiry>>::converted(&t) is Ok <==> is_expiry_series(t@),
        <&str as FieldInput<ExpiryInfoExpiry>>::converted(&t) matches Ok(x) ==> x == t@,
        <&str as FieldInput<ExpiryInfoExpiry>>::converted(&t) matches Err(e) ==> e == expiry_series_mismatch(),
        <&String as FieldInput<ExpiryInfoExpiry>>::converted(&w) is Ok <==> is_expiry_series(w@),
        <&String as FieldInput<ExpiryInfoExpiry>>::converted(&w) matches Ok(x) ==> x == w@,
        <&String as FieldInput<ExpiryInfoExpiry>>::converted(&w) matches Err(e) ==> e == expiry_series_mismatch(),
        <String as FieldInput<ExpiryInfoExpiry>>::converted(&u) is Ok <==> is_expiry_series(u@),
        <String as FieldInput<ExpiryInfoExpiry>>::converted(&u) matches Ok(x) ==> x == u@,
        <String as FieldInput<ExpiryInfoExpiry>>::converted(&u) matches Err(e) ==> e == expiry_series_mismatch(),
        <Option<ExpiryInfoExpiry> as FieldInput<Option<ExpiryInfoExpiry>>>::converted(&o)
            == Ok::<Option<Seq<char>>, Seq<char>>(o.deep_view()),
        <ExpiryInfoExpiry as FieldInput<Option<ExpiryInfoExpiry>>>::converted(&v)
            == Ok::<Option<Seq<char>>, Seq<char>>(Some(v@)),
{
}

impl FieldInput<Option<ExpiryInfoExpiry>> for Option<ExpiryInfoExpiry> {
    open spec fn converted(&self) -> Result<Option<Seq<char>>, Seq<char>> {
        Ok(self.deep_view())
    }

    fn into_field(self) -> (r: Result<Option<ExpiryInfoExpiry>, ConversionError>) {
        Ok(self)
    }
}

impl FieldInput<Option<ExpiryInfoExpiry>> for ExpiryInfoExpiry {
    open spec fn converted(&self) -> Result<Option<Seq<char>>, Seq<char>> {
        Ok(Some(self@))
    }

    fn into_field(self) -> (r: Result<Option<ExpiryInfoExpiry>, ConversionError>) {
        Ok(Some(self))
    }
}

/// Last trading day (YYYY-MM-DD).
///
/// The text of every value matches `^\d{4}-\d{2}-\d{2}$`: the shape YYYY-MM-DD.
#[derive(Debug, PartialEq, Eq, Hash, PartialOrd, Ord)]
pub struct ExpiryInfoLastTradingDay(String);

impl ExpiryInfoLastTradingDay {
    #[verifier::type_invariant]
    spec fn well_formed(self) -> bool {
        is_calendar_date(self.0@)
    }
}

impl View for ExpiryInfoLastTradingDay {
    type V = Seq<char>;

    closed spec fn view(&self) -> Seq<char> {
        self.0@
    }
}

impl DeepView for ExpiryInfoLastTradingDay {
    type V = Seq<char>;

    open spec fn deep_view(&self) -> Seq<char> {
        self@
    }
}

impl Clone for ExpiryInfoLastTradingDay {
    fn clone(&self) -> (r: Self)
        ensures
            r@ == self@,
    {
        proof {
            use_type_invariant(self);
        }
        ExpiryInfoLastTradingDay(self.0.clone())
    }
}

impl ExpiryInfoLastTradingDay {
    /// Validates `value`: it is accepted exactly when it matches `^\d{4}-\d{2}-\d{2}$`: the shape YYYY-MM-DD.
    pub fn from_str(value: &str) -> (r: Result<ExpiryInfoLastTradingDay, ConversionError>)
        ensures
            r is Ok <==> is_calendar_date(value@),
            r matches Ok(v) ==> v@ == value@,
            r matches Err(e) ==> e@ == calendar_date_mismatch(),
    {
        if !pattern_found("^\\d{4}-\\d{2}-\\d{2}$", value) {
            return Err("doesn't match pattern \"^\\d{4}-\\d{2}-\\d{2}$\"".to_owned());
        }
        Ok(ExpiryInfoLastTradingDay(value.to_owned()))
    }

    /// The text of this value.
    pub fn as_str(&self) -> (r: &str)
        ensures
            r@ == self@,
            is_calendar_date(r@),
    {
        proof {
            use_type_invariant(self);
        }
        self.0.as_str()
    }

    /// The text of this value, as an owned string.
    pub fn into_string(self) -> (r: String)
        ensures
            r@ == self@,
            is_calendar_date(r@),
    {
        proof {
            use_type_invariant(&self);
        }
        self.0
    }
}

impl std::str::FromStr for ExpiryInfoLastTradingDay {
    type Err = ConversionError;

    fn from_str(value: &str) -> (r: Result<ExpiryInfoLastTradingDay, ConversionError>)
        ensures
            r is Ok <==> is_calendar_date(value@),
            r matches Ok(v) ==> v@ == value@,
            r matches Err(e) ==> e@ == calendar_date_mismatch(),
    {
        ExpiryInfoLastTradingDay::from_str(value)
    }
}

impl FieldInput<ExpiryInfoLastTradingDay> for ExpiryInfoLastTradingDay {
    open spec fn converted(&self) -> Result<Seq<char>, Seq<char>> {
        Ok(self@)
    }

    fn into_field(self) -> (r: Result<ExpiryInfoLastTradingDay, ConversionError>) {
        Ok(self)
    }
}

impl<'a> FieldInput<ExpiryInfoLastTradingDay> for &'a str {
    open spec fn converted(&self) -> Result<Seq<char>, Seq<char>> {
        if is_calendar_date(self@) {
            Ok(self@)
        } else {
            Err(calendar_date_mismatch())
        }
    }

    fn into_field(self) -> (r: Result<ExpiryInfoLastTradingDay, ConversionError>) {
        ExpiryInfoLastTradingDay::from_str(self)
    }
}

impl<'a> FieldInput<ExpiryInfoLastTradingDay> for &'a String {
    open spec fn converted(&self) -> Result<Seq<char>, Seq<char>> {
        if is_calendar_date(self@) {
            Ok(self@)
        } else {
            Err(calendar_date_mismatch())
        }
    }

    fn into_field(self) -> (r: Result<ExpiryInfoLastTradingDay, ConversionError>) {
        ExpiryInfoLastTradingDay::from_str(self.as_str())
    }
}

impl FieldInput<ExpiryInfoLastTradingDay> for String {
    open spec fn converted(&self) -> Result<Seq<char>, Seq<char>> {
        if is_calendar_date(self@) {
            Ok(self@)
        } else {
            Err(calendar_date_mismatch())
        }
    }

    fn into_field(self) -> (r: Result<ExpiryInfoLastTradingDay, ConversionError>) {
        ExpiryInfoLastTradingDay::from_str(self.as_str())
    }
}

impl<'a> FieldInput<ExpiryInfoLastTradingDay> for &'a ExpiryInfoLastTradingDay {
    open spec fn converted(&self) -> Result<Seq<char>, Seq<char>> {
        Ok(self@)
    }

    fn into_field(self) -> (r: Result<ExpiryInfoLastTradingDay, ConversionError>) {
        Ok(self.clone())
    }
}

impl<'a> TryFrom<&'a str> for ExpiryInfoLastTradingDay {
    type Error = ConversionError;

    fn try_from(value: &'a str) -> (r: Result<ExpiryInfoLastTradingDay, ConversionError>)
        ensures
            r is Ok <==> is_calendar_date(value@),
            r matches Ok(v) ==> v@ == value@,
            r matches Err(e) ==> e@ == calendar_date_mismatch(),
    {
        ExpiryInfoLastTradingDay::from_str(value)
    }
}

/// The contract of this conversion is the one on its `try_from` above;
/// nothing is claimed through the generic specification.
impl<'a> vstd::std_specs::convert::TryFromSpecImpl<&'a str> for ExpiryInfoLastTradingDay {
    open spec fn obeys_try_from_spec() -> bool {
        false
    }

    open spec fn try_from_spec(value: &'a str) -> Result<ExpiryInfoLastTradingDay, ConversionError> {
        arbitrary()
    }
}

impl<'a> TryFrom<&'a String> for ExpiryInfoLastTradingDay {
    type Error = ConversionError;

    fn try_from(value: &'a String) -> (r: Result<ExpiryInfoLastTradingDay, ConversionError>)
        ensures
            r is Ok <==> is_calendar_date(value@),
            r matches Ok(v) ==> v@ == value@,
            r matches Err(e) ==> e@ == calendar_date_mismatch(),
    {
        ExpiryInfoLastTradingDay::from_str(value.as_str())
    }
}

/// The contract of this conversion is the one on its `try_from` above;
/// nothing is claimed through the generic specification.
impl<'a> vstd::std_specs::convert::TryFromSpecImpl<&'a String> for ExpiryInfoLastTradingDay {
    open spec fn obeys_try_from_spec() -> bool {
        false
    }

    open spec fn try_from_spec(value: &'a String) -> Result<ExpiryInfoLastTradingDay, ConversionError> {
        arbitrary()
    }
}

impl TryFrom<String> for ExpiryInfoLastTradingDay {
    type Error = ConversionError;

    fn try_from(value: String) -> (r: Result<ExpiryInfoLastTradingDay, ConversionError>)
        ensures
            r is Ok <==> is_calendar_date(value@),
            r matches Ok(v) ==> v@ == value@,
            r matches Err(e) ==> e@ == calendar_date_mismatch(),
    {
        ExpiryInfoLastTradingDay::from_str(value.as_str())
    }
}

/// The contract of this conversion is the one on its `try_from` above;
/// nothing is claimed through the generic specification.
impl vstd::std_specs::convert::TryFromSpecImpl<String> for ExpiryInfoLastTradingDay {
    open spec fn obeys_try_from_spec() -> bool {
        false
    }

    open spec fn try_from_spec(value: String) -> Result<ExpiryInfoLastTradingDay, ConversionError> {
        arbitrary()
    }
}

/// What a builder setter makes of each kind of input for a `ExpiryInfoLastTradingDay` field:
/// a value (or a reference to one) stands for itself, and text of any of the
/// three string kinds is read exactly as `from_str` reads it: accepted, with
/// its own text, when it matches `^\d{4}-\d{2}-\d{2}$`: the shape YYYY-MM-DD, refused with `from_str`'s message otherwise.
pub proof fn lemma_expiry_info_last_trading_day_inputs(v: ExpiryInfoLastTradingDay, o: Option<ExpiryInfoLastTradingDay>, t: &str, w: &String, u: String)
    ensures
        <ExpiryInfoLastTradingDay as FieldInput<ExpiryInfoLastTradingDay>>::converted(&v) == Ok::<Seq<char>, Seq<char>>(v@),
        <&ExpiryInfoLastTradingDay as FieldInput<ExpiryInfoLastTradingDay>>::converted(&&v) == Ok::<Seq<char>, Seq<char>>(v@),
        <&str as FieldInput<ExpiryInfoLastTradingDay>>::converted(&t) is Ok <==> is_calendar_date(t@),
        <&str as FieldInput<ExpiryInfoLastTradingDay>>::converted(&t) matches Ok(x) ==> x == t@,
        <&str as FieldInput<ExpiryInfoLastTradingDay>>::converted(&t) matches Err(e) ==> e == calendar_date_mismatch(),
        <&String as FieldInput<ExpiryInfoLastTradingDay>>::converted(&w) is Ok <==> is_calendar_date(w@),
        <&String as FieldInput<ExpiryInfoLastTradingDay>>::converted(&w) matches Ok(x) ==> x == w@,
        <&String as FieldInput<ExpiryInfoLastTradingDay>>::converted(&w) matches Err(e) ==> e == calendar_date_mismatch(),
        <String as FieldInput<ExpiryInfoLastTradingDay>>::converted(&u) is Ok <==> is_calendar_date(u@),
        <String as FieldInput<ExpiryInfoLastTradingDay>>::converted(&u) matches Ok(x) ==> x == u@,
        <String as FieldInput<ExpiryInfoLastTradingDay>>::converted(&u) matches Err(e) ==> e == calendar_date_mismatch(),
        <Option<ExpiryInfoLastTradingDay> as FieldInput<Option<ExpiryInfoLastTradingDay>>>::converted(&o)
            == Ok::<Option<Seq<char>>, Seq<char>>(o.deep_view()),
        <ExpiryInfoLastTradingDay as FieldInput<Option<ExpiryInfoLastTradingDay>>>::converted(&v)
            == Ok::<Option<Seq<char>>, Seq<char>>(Some(v@)),
{
}

impl FieldInput<Option<ExpiryInfoLastTradingDay>> for Option<ExpiryInfoLastTradingDay> {
    open spec fn converted(&self) -> Result<Option<Seq<char>>, Seq<char>> {
        Ok(self.deep_view())
    }

    fn into_field(self) -> (r: Result<Option<ExpiryInfoLastTradingDay>, ConversionError>) {
        Ok(self)
    }
}

impl FieldInput<Option<ExpiryInfoLastTradingDay>> for ExpiryInfoLastTradingDay {
    open spec fn converted(&self) -> Result<Option<Seq<char>>, Seq<char>> {
        Ok(Some(self@))
    }

    fn into_field(self) -> (r: Result<Option<ExpiryInfoLastTradingDay>, ConversionError>) {
        Ok(Some(self))
    }
}

/// Settlement date (YYYY-MM-DD).
///
/// The text of every value matches `^\d{4}-\d{2}-\d{2}$`: the shape YYYY-MM-DD.
#[derive(Debug, PartialEq, Eq, Hash, PartialOrd, Ord)]
pub struct ExpiryInfoSettlementDate(String);

impl ExpiryInfoSettlementDate {
    #[verifier::type_invariant]
    spec fn well_formed(self) -> bool {
        is_calendar_date(self.0@)
    }
}

impl View for ExpiryInfoSettlementDate {
    type V = Seq<char>;

    closed spec fn view(&self) -> Seq<char> {
        self.0@
    }
}

impl DeepView for ExpiryInfoSettlementDate {
    type V = Seq<char>;

    open spec fn deep_view(&self) -> Seq<char> {
        self@
    }
}

impl Clone for ExpiryInfoSettlementDate {
    fn clone(&self) -> (r: Self)
        ensures
            r@ == self@,
    {
        proof {
            use_type_invariant(self);
        }
        ExpiryInfoSettlementDate(self.0.clone())
    }
}

impl ExpiryInfoSettlementDate {
    /// Validates `value`: it is accepted exactly when it matches `^\d{4}-\d{2}-\d{2}$`: the shape YYYY-MM-DD.
    pub fn from_str(value: &str) -> (r: Result<ExpiryInfoSettlementDate, ConversionError>)
        ensures
            r is Ok <==> is_calendar_date(value@),
            r matches Ok(v) ==> v@ == value@,
            r matches Err(e) ==> e@ == calendar_date_mismatch(),
    {
        if !pattern_found("^\\d{4}-\\d{2}-\\d{2}$", value) {
            return Err("doesn't match pattern \"^\\d{4}-\\d{2}-\\d{2}$\"".to_owned());
        }
        Ok(ExpiryInfoSettlementDate(value.to_owned()))
    }

    /// The text of this value.
    pub fn as_str(&self) -> (r: &str)
        ensures
            r@ == self@,
            is_calendar_date(r@),
    {
        proof {
            use_type_invariant(self);
        }
        self.0.as_str()
    }

    /// The text of this value, as an owned string.
    pub fn into_string(self) -> (r: String)
        ensures
            r@ == self@,
            is_calendar_date(r@),
    {
        proof {
            use_type_invariant(&self);
        }
        self.0
    }
}

impl std::str::FromStr for ExpiryInfoSettlementDate {
    type Err = ConversionError;

    fn from_str(value: &str) -> (r: Result<ExpiryInfoSettlementDate, ConversionError>)
        ensures
            r is Ok <==> is_calendar_date(value@),
            r matches Ok(v) ==> v@ == value@,
            r matches Err(e) ==> e@ == calendar_date_mismatch(),
    {
        ExpiryInfoSettlementDate::from_str(value)
    }
}

impl FieldInput<ExpiryInfoSettlementDate> for ExpiryInfoSettlementDate {
    open spec fn converted(&self) -> Result<Seq<char>, Seq<char>> {
        Ok(self@)
    }

    fn into_field(self) -> (r: Result<ExpiryInfoSettlementDate, ConversionError>) {
        Ok(self)
    }
}

impl<'a> FieldInput<ExpiryInfoSettlementDate> for &'a str {
    open spec fn converted(&self) -> Result<Seq<char>, Seq<char>> {
        if is_calendar_date(self@) {
            Ok(self@)
        } else {
            Err(calendar_date_mismatch())
        }
    }

    fn into_field(self) -> (r: Result<ExpiryInfoSettlementDate, ConversionError>) {
        ExpiryInfoSettlementDate::from_str(self)
    }
}

impl<'a> FieldInput<ExpiryInfoSettlementDate> for &'a String {
    open spec fn converted(&self) -> Result<Seq<char>, Seq<char>> {
        if is_calendar_date(self@) {
            Ok(self@)
        } else {
            Err(calendar_date_mismatch())
        }
    }

    fn into_field(self) -> (r: Result<ExpiryInfoSettlementDate, ConversionError>) {
        ExpiryInfoSettlementDate::from_str(self.as_str())
    }
}

impl FieldInput<ExpiryInfoSettlementDate> for String {
    open spec fn converted(&self) -> Result<Seq<char>, Seq<char>> {
        if is_calendar_date(self@) {
            Ok(self@)
        } else {
            Err(calendar_date_mismatch())
        }
    }

    fn into_field(self) -> (r: Result<ExpiryInfoSettlementDate, ConversionError>) {
        ExpiryInfoSettlementDate::from_str(self.as_str())
    }
}

impl<'a> FieldInput<ExpiryInfoSettlementDate> for &'a ExpiryInfoSettlementDate {
    open spec fn converted(&self) -> Result<Seq<char>, Seq<char>> {
        Ok(self@)
    }

    fn into_field(self) -> (r: Result<ExpiryInfoSettlementDate, ConversionError>) {
        Ok(self.clone())
    }
}

impl<'a> TryFrom<&'a str> for ExpiryInfoSettlementDate {
    type Error = ConversionError;

    fn try_from(value: &'a str) -> (r: Result<ExpiryInfoSettlementDate, ConversionError>)
        ensures
            r is Ok <==> is_calendar_date(value@),
            r matches Ok(v) ==> v@ == value@,
            r matches Err(e) ==> e@ == calendar_date_mismatch(),
    {
        ExpiryInfoSettlementDate::from_str(value)
    }
}

/// The contract of this conversion is the one on its `try_from` above;
/// nothing is claimed through the generic specification.
impl<'a> vstd::std_specs::convert::TryFromSpecImpl<&'a str> for ExpiryInfoSettlementDate {
    open spec fn obeys_try_from_spec() -> bool {
        false
    }

    open spec fn try_from_spec(value: &'a str) -> Result<ExpiryInfoSettlementDate, ConversionError> {
        arbitrary()
    }
}

impl<'a> TryFrom<&'a String> for ExpiryInfoSettlementDate {
    type Error = ConversionError;

    fn try_from(value: &'a String) -> (r: Result<ExpiryInfoSettlementDate, ConversionError>)
        ensures
            r is Ok <==> is_calendar_date(value@),
            r matches Ok(v) ==> v@ == value@,
            r matches Err(e) ==> e@ == calendar_date_mismatch(),
    {
        ExpiryInfoSettlementDate::from_str(value.as_str())
    }
}

/// The contract of this conversion is the one on its `try_from` above;
/// nothing is claimed through the generic specification.
impl<'a> vstd::std_specs::convert::TryFromSpecImpl<&'a String> for ExpiryInfoSettlementDate {
    open spec fn obeys_try_from_spec() -> bool {
        false
    }

    open spec fn try_from_spec(value: &'a String) -> Result<ExpiryInfoSettlementDate, ConversionError> {
        arbitrary()
    }
}

impl TryFrom<String> for ExpiryInfoSettlementDate {
    type Error = ConversionError;

    fn try_from(value: String) -> (r: Result<ExpiryInfoSettlementDate, ConversionError>)
        ensures
            r is Ok <==> is_calendar_date(value@),
            r matches Ok(v) ==> v@ == value@,
            r matches Err(e) ==> e@ == calendar_date_mismatch(),
    {
        ExpiryInfoSettlementDate::from_str(value.as_str())
    }
}

/// The contract of this conversion is the one on its `try_from` above;
/// nothing is claimed through the generic specification.
impl vstd::std_specs::convert::TryFromSpecImpl<String> for ExpiryInfoSettlementDate {
    open spec fn obeys_try_from_spec() -> bool {
        false
    }

    open spec fn try_from_spec(value: String) -> Result<ExpiryInfoSettlementDate, ConversionError> {
        arbitrary()
    }
}

/// What a builder setter makes of each kind of input for a `ExpiryInfoSettlementDate` field:
/// a value (or a reference to one) stands for itself, and text of any of the
/// three string kinds is read exactly as `from_str` reads it: accepted, with
/// its own text, when it matches `^\d{4}-\d{2}-\d{2}$`: the shape YYYY-MM-DD, refused with `from_str`'s message otherwise.
pub proof fn lemma_expiry_info_settlement_date_inputs(v: ExpiryInfoSettlementDate, o: Option<ExpiryInfoSettlementDate>, t: &str, w: &String, u: String)
    ensures
        <ExpiryInfoSettlementDate as FieldInput<ExpiryInfoSettlementDate>>::converted(&v) == Ok::<Seq<char>, Seq<char>>(v@),
        <&ExpiryInfoSettlementDate as FieldInput<ExpiryInfoSettlementDate>>::converted(&&v) == Ok::<Seq<char>, Seq<char>>(v@),
        <&str as FieldInput<ExpiryInfoSettlementDate>>::converted(&t) is Ok <==> is_calendar_date(t@),
        <&str as FieldInput<ExpiryInfoSettlementDate>>::converted(&t) matches Ok(x) ==> x == t@,
        <&str as FieldInput<ExpiryInfoSettlementDate>>::converted(&t) matches Err(e) ==> e == calendar_date_mismatch(),
        <&String as FieldInput<ExpiryInfoSettlementDate>>::converted(&w) is Ok <==> is_calendar_date(w@),
        <&String as FieldInput<ExpiryInfoSettlementDate>>::converted(&w) matches Ok(x) ==> x == w@,
        <&String as FieldInput<ExpiryInfoSettlementDate>>::converted(&w) matches Err(e) ==> e == calendar_date_mismatch(),
        <String as FieldInput<ExpiryInfoSettlementDate>>::converted(&u) is Ok <==> is_calendar_date(u@),
        <String as FieldInput<ExpiryInfoSettlementDate>>::converted(&u) matches Ok(x) ==> x == u@,
        <String as FieldInput<ExpiryInfoSettlementDate>>::converted(&u) matches Err(e) ==> e == calendar_date_mismatch(),
        <Option<ExpiryInfoSettlementDate> as FieldInput<Option<ExpiryInfoSettlementDate>>>::converted(&o)
            == Ok::<Option<Seq<char>>, Seq<char>>(o.deep_view()),
        <ExpiryInfoSettlementDate as FieldInput<Option<ExpiryInfoSettlementDate>>>::converted(&v)
            == Ok::<Option<Seq<char>>, Seq<char>>(Some(v@)),
{
}

impl FieldInput<Option<ExpiryInfoSettlementDate>> for Option<ExpiryInfoSettlementDate> {
    open spec fn converted(&self) -> Result<Option<Seq<char>>, Seq<char>> {
        Ok(self.deep_view())
    }

    fn into_field(self) -> (r: Result<Option<ExpiryInfoSettlementDate>, ConversionError>) {
        Ok(self)
    }
}

impl FieldInput<Option<ExpiryInfoSettlementDate>> for ExpiryInfoSettlementDate {
    open spec fn converted(&self) -> Result<Option<Seq<char>>, Seq<char>> {
        Ok(Some(self@))
    }

    fn into_field(self) -> (r: Result<Option<ExpiryInfoSettlementDate>, ConversionError>) {
        Ok(Some(self))
    }
}

/// Expiry related information of a future or an option.
#[derive(Debug)]
pub struct ExpiryInfo {
    /// Expiration date.
    pub expiration_date: ExpiryInfoExpirationDate,
    /// Expiry series.
    pub expiry: Option<ExpiryInfoExpiry>,
    /// Last day on which the contract can be traded.
    pub last_trading_day: Option<ExpiryInfoLastTradingDay>,
    /// Settlement date.
    pub settlement_date: Option<ExpiryInfoSettlementDate>,
}

/// An `ExpiryInfo` over views: the text of each field.
pub struct ExpiryInfoView {
    pub expiration_date: Seq<char>,
    pub expiry: Option<Seq<char>>,
    pub last_trading_day: Option<Seq<char>>,
    pub settlement_date: Option<Seq<char>>,
}

impl View for ExpiryInfo {
    type V = ExpiryInfoView;

    open spec fn view(&self) -> ExpiryInfoView {
        ExpiryInfoView {
            expiration_date: self.expiration_date@,
            expiry: self.expiry.deep_view(),
            last_trading_day: self.last_trading_day.deep_view(),
            settlement_date: self.settlement_date.deep_view(),
        }
    }
}

impl Clone for ExpiryInfo {
    fn clone(&self) -> (r: Self)
        ensures
            r@ == self@,
    {
        ExpiryInfo {
            expiration_date: self.expiration_date.clone(),
            expiry: match &self.expiry {
                Some(v) => Some(v.clone()),
                None => None,
            },
            last_trading_day: match &self.last_trading_day {
                Some(v) => Some(v.clone()),
                None => None,
            },
            settlement_date: match &self.settlement_date {
                Some(v) => Some(v.clone()),
                None => None,
            },
        }
    }
}

impl ExpiryInfo {
    /// A new builder: no expiration date yet, no optional field.
    pub fn builder() -> (r: builder::ExpiryInfo)
        ensures
            r@ == builder::ExpiryInfoView::fresh(),
    {
        builder::ExpiryInfo::default()
    }
}

} // verus!
