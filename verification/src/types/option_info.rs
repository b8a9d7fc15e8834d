//! Field types of option contract information.

pub use crate::types::error;

use vstd::prelude::*;

use crate::types::error::ConversionError;
use crate::types::field_input::FieldInput;
use crate::types::text::{str_eq};

verus! {

/// Exercise style of an option (american, european or bermudan).
///
/// The schema names its values `american`, `european`, `bermudan`.
#[derive(Clone, Copy, Debug, PartialEq, Eq, Structural, Hash, PartialOrd, Ord)]
pub enum OptionInfoExerciseStyle {
    American,
    European,
    Bermudan,
}

impl View for OptionInfoExerciseStyle {
    type V = OptionInfoExerciseStyle;

    open spec fn view(&self) -> OptionInfoExerciseStyle {
        *self
    }
}

impl DeepView for OptionInfoExerciseStyle {
    type V = OptionInfoExerciseStyle;

    open spec fn deep_view(&self) -> OptionInfoExerciseStyle {
        *self
    }
}

impl OptionInfoExerciseStyle {
    /// The schema's name of each value.
    pub open spec fn name(self) -> Seq<char> {
        match self {
            OptionInfoExerciseStyle::American => "american"@,
            OptionInfoExerciseStyle::European => "european"@,
            OptionInfoExerciseStyle::Bermudan => "bermudan"@,
        }
    }

    /// The value that the text `s` names, if any.
    pub open spec fn parse(s: Seq<char>) -> Option<OptionInfoExerciseStyle> {
        if s == "american"@ {
            Some(OptionInfoExerciseStyle::American)
        } else if s == "european"@ {
            Some(OptionInfoExerciseStyle::European)
        } else if s == "bermudan"@ {
            Some(OptionInfoExerciseStyle::Bermudan)
        } else {
            None
        }
    }

    /// The schema's name of this value.
    pub fn as_str(&self) -> (r: &'static str)
        ensures
            r@ == self.name(),
    {
        match self {
            OptionInfoExerciseStyle::American => "american",
            OptionInfoExerciseStyle::European => "european",
            OptionInfoExerciseStyle::Bermudan => "bermudan",
        }
    }

    /// The schema's name of this value, as an owned string.
    pub fn to_string(&self) -> (r: String)
        ensures
            r@ == self.name(),
    {
        self.as_str().to_owned()
    }

    /// The value that `value` names; any other text is refused.
    pub fn from_str(value: &str) -> (r: Result<OptionInfoExerciseStyle, ConversionError>)
        ensures
            match r {
                Ok(v) => OptionInfoExerciseStyle::parse(value@) == Some(v),
                Err(e) => OptionInfoExerciseStyle::parse(value@) is None && e@ == "invalid value"@,
            },
    {
        if str_eq(value, "american") {
            Ok(OptionInfoExerciseStyle::American)
        } else if str_eq(value, "european") {
            Ok(OptionInfoExerciseStyle::European)
        } else if str_eq(value, "bermudan") {
            Ok(OptionInfoExerciseStyle::Bermudan)
        } else {
            Err("invalid value".to_owned())
        }
    }
}

/// Each value is read back from its name, and text that is read as a value
/// is that value's name: `from_str` undoes `to_string`.
pub proof fn lemma_option_info_exercise_style_names(v: OptionInfoExerciseStyle)
    ensures
        OptionInfoExerciseStyle::parse(v.name()) == Some(v),
        forall|s: Seq<char>| OptionInfoExerciseStyle::parse(s) == Some(v) ==> s == v.name(),
{
    reveal_strlit("american");
    reveal_strlit("european");
    reveal_strlit("bermudan");
    assert("american"@.len() == 8);
    assert("american"@[0] == 'a');
    assert("european"@.len() == 8);
    assert("european"@[0] == 'e');
    assert("bermudan"@.len() == 8);
    assert("bermudan"@[0] == 'b');
}

impl std::str::FromStr for OptionInfoExerciseStyle {
    type Err = ConversionError;

    fn from_str(value: &str) -> (r: Result<OptionInfoExerciseStyle, ConversionError>)
        ensures
            match r {
                Ok(v) => OptionInfoExerciseStyle::parse(value@) == Some(v),
                Err(e) => OptionInfoExerciseStyle::parse(value@) is None && e@ == "invalid value"@,
            },
    {
        OptionInfoExerciseStyle::from_str(value)
    }
}

impl FieldInput<OptionInfoExerciseStyle> for OptionInfoExerciseStyle {
    open spec fn converted(&self) -> Result<OptionInfoExerciseStyle, Seq<char>> {
        Ok(*self)
    }

    fn into_field(self) -> (r: Result<OptionInfoExerciseStyle, ConversionError>) {
        Ok(self)
    }
}

impl<'a> FieldInput<OptionInfoExerciseStyle> for &'a str {
    open spec fn converted(&self) -> Result<OptionInfoExerciseStyle, Seq<char>> {
        match OptionInfoExerciseStyle::parse(self@) {
            Some(v) => Ok(v),
            None => Err("invalid value"@),
        }
    }

    fn into_field(self) -> (r: Result<OptionInfoExerciseStyle, ConversionError>) {
        OptionInfoExerciseStyle::from_str(self)
    }
}

impl<'a> FieldInput<OptionInfoExerciseStyle> for &'a String {
    open spec fn converted(&self) -> Result<OptionInfoExerciseStyle, Seq<char>> {
        match OptionInfoExerciseStyle::parse(self@) {
            Some(v) => Ok(v),
            None => Err("invalid value"@),
        }
    }

    fn into_field(self) -> (r: Result<OptionInfoExerciseStyle, ConversionError>) {
        OptionInfoExerciseStyle::from_str(self.as_str())
    }
}

impl FieldInput<OptionInfoExerciseStyle> for String {
    open spec fn converted(&self) -> Result<OptionInfoExerciseStyle, Seq<char>> {
        match OptionInfoExerciseStyle::parse(self@) {
            Some(v) => Ok(v),
            None => Err("invalid value"@),
        }
    }

    fn into_field(self) -> (r: Result<OptionInfoExerciseStyle, ConversionError>) {
        OptionInfoExerciseStyle::from_str(self.as_str())
    }
}

impl<'a> FieldInput<OptionInfoExerciseStyle> for &'a OptionInfoExerciseStyle {
    open spec fn converted(&self) -> Result<OptionInfoExerciseStyle, Seq<char>> {
        Ok(**self)
    }

    fn into_field(self) -> (r: Result<OptionInfoExerciseStyle, ConversionError>) {
        Ok(*self)
    }
}

/// What a builder setter makes of each kind of input for a `OptionInfoExerciseStyle` field:
/// a value (or a reference to one) stands for itself, and text of any of the
/// three string kinds is read exactly as `from_str` reads it: the value that
/// the text names, or `invalid value`.
pub proof fn lemma_option_info_exercise_style_inputs(v: OptionInfoExerciseStyle, t: &str, w: &String, u: String)
    ensures
        <OptionInfoExerciseStyle as FieldInput<OptionInfoExerciseStyle>>::converted(&v) == Ok::<OptionInfoExerciseStyle, Seq<char>>(v),
        <&OptionInfoExerciseStyle as FieldInput<OptionInfoExerciseStyle>>::converted(&&v) == Ok::<OptionInfoExerciseStyle, Seq<char>>(v),
        <&str as FieldInput<OptionInfoExerciseStyle>>::converted(&t) matches Ok(x) ==> OptionInfoExerciseStyle::parse(t@) == Some(x),
        <&str as FieldInput<OptionInfoExerciseStyle>>::converted(&t) matches Err(e) ==> OptionInfoExerciseStyle::parse(t@) is None && e == "invalid value"@,
        OptionInfoExerciseStyle::parse(t@) matches Some(x) ==> <&str as FieldInput<OptionInfoExerciseStyle>>::converted(&t) == Ok::<OptionInfoExerciseStyle, Seq<char>>(x),
        <&String as FieldInput<OptionInfoExerciseStyle>>::converted(&w) matches Ok(x) ==> OptionInfoExerciseStyle::parse(w@) == Some(x),
        <&String as FieldInput<OptionInfoExerciseStyle>>::converted(&w) matches Err(e) ==> OptionInfoExerciseStyle::parse(w@) is None && e == "invalid value"@,
        OptionInfoExerciseStyle::parse(w@) matches Some(x) ==> <&String as FieldInput<OptionInfoExerciseStyle>>::converted(&w) == Ok::<OptionInfoExerciseStyle, Seq<char>>(x),
        <String as FieldInput<OptionInfoExerciseStyle>>::converted(&u) matches Ok(x) ==> OptionInfoExerciseStyle::parse(u@) == Some(x),
        <String as FieldInput<OptionInfoExerciseStyle>>::converted(&u) matches Err(e) ==> OptionInfoExerciseStyle::parse(u@) is None && e == "invalid value"@,
        OptionInfoExerciseStyle::parse(u@) matches Some(x) ==> <String as FieldInput<OptionInfoExerciseStyle>>::converted(&u) == Ok::<OptionInfoExerciseStyle, Seq<char>>(x),
{
}

impl<'a> TryFrom<&'a str> for OptionInfoExerciseStyle {
    type Error = ConversionError;

    fn try_from(value: &'a str) -> (r: Result<OptionInfoExerciseStyle, ConversionError>)
        ensures
            match r {
                Ok(v) => OptionInfoExerciseStyle::parse(value@) == Some(v),
                Err(e) => OptionInfoExerciseStyle::parse(value@) is None && e@ == "invalid value"@,
            },
    {
        OptionInfoExerciseStyle::from_str(value)
    }
}

/// The contract of this conversion is the one on its `try_from` above;
/// nothing is claimed through the generic specification.
impl<'a> vstd::std_specs::convert::TryFromSpecImpl<&'a str> for OptionInfoExerciseStyle {
    open spec fn obeys_try_from_spec() -> bool {
        false
    }

    open spec fn try_from_spec(value: &'a str) -> Result<OptionInfoExerciseStyle, ConversionError> {
        arbitrary()
    }
}

impl<'a> TryFrom<&'a String> for OptionInfoExerciseStyle {
    type Error = ConversionError;

    fn try_from(value: &'a String) -> (r: Result<OptionInfoExerciseStyle, ConversionError>)
        ensures
            match r {
                Ok(v) => OptionInfoExerciseStyle::parse(value@) == Some(v),
                Err(e) => OptionInfoExerciseStyle::parse(value@) is None && e@ == "invalid value"@,
            },
    {
        OptionInfoExerciseStyle::from_str(value.as_str())
    }
}

/// The contract of this conversion is the one on its `try_from` above;
/// nothing is claimed through the generic specification.
impl<'a> vstd::std_specs::convert::TryFromSpecImpl<&'a String> for OptionInfoExerciseStyle {
    open spec fn obeys_try_from_spec() -> bool {
        false
    }

    open spec fn try_from_spec(value: &'a String) -> Result<OptionInfoExerciseStyle, ConversionError> {
        arbitrary()
    }
}

impl TryFrom<String> for OptionInfoExerciseStyle {
    type Error = ConversionError;

    fn try_from(value: String) -> (r: Result<OptionInfoExerciseStyle, ConversionError>)
        ensures
            match r {
                Ok(v) => OptionInfoExerciseStyle::parse(value@) == Some(v),
                Err(e) => OptionInfoExerciseStyle::parse(value@) is None && e@ == "invalid value"@,
            },
    {
        OptionInfoExerciseStyle::from_str(value.as_str())
    }
}

/// The contract of this conversion is the one on its `try_from` above;
/// nothing is claimed through the generic specification.
impl vstd::std_specs::convert::TryFromSpecImpl<String> for OptionInfoExerciseStyle {
    open spec fn obeys_try_from_spec() -> bool {
        false
    }

    open spec fn try_from_spec(value: String) -> Result<OptionInfoExerciseStyle, ConversionError> {
        arbitrary()
    }
}

/// Option type: call or put.
///
/// The schema names its values `call`, `put`.
#[derive(Clone, Copy, Debug, PartialEq, Eq, Structural, Hash, PartialOrd, Ord)]
pub enum OptionInfoOptionType {
    Call,
    Put,
}

impl View for OptionInfoOptionType {
    type V = OptionInfoOptionType;

    open spec fn view(&self) -> OptionInfoOptionType {
        *self
    }
}

impl DeepView for OptionInfoOptionType {
    type V = OptionInfoOptionType;

    open spec fn deep_view(&self) -> OptionInfoOptionType {
        *self
    }
}

impl OptionInfoOptionType {
    /// The schema's name of each value.
    pub open spec fn name(self) -> Seq<char> {
        match self {
            OptionInfoOptionType::Call => "call"@,
            OptionInfoOptionType::Put => "put"@,
        }
    }

    /// The value that the text `s` names, if any.
    pub open spec fn parse(s: Seq<char>) -> Option<OptionInfoOptionType> {
        if s == "call"@ {
            Some(OptionInfoOptionType::Call)
        } else if s == "put"@ {
            Some(OptionInfoOptionType::Put)
        } else {
            None
        }
    }

    /// The schema's name of this value.
    pub fn as_str(&self) -> (r: &'static str)
        ensures
            r@ == self.name(),
    {
        match self {
            OptionInfoOptionType::Call => "call",
            OptionInfoOptionType::Put => "put",
        }
    }

    /// The schema's name of this value, as an owned string.
    pub fn to_string(&self) -> (r: String)
        ensures
            r@ == self.name(),
    {
        self.as_str().to_owned()
    }

    /// The value that `value` names; any other text is refused.
    pub fn from_str(value: &str) -> (r: Result<OptionInfoOptionType, ConversionError>)
        ensures
            match r {
                Ok(v) => OptionInfoOptionType::parse(value@) == Some(v),
                Err(e) => OptionInfoOptionType::parse(value@) is None && e@ == "invalid value"@,
            },
    {
        if str_eq(value, "call") {
            Ok(OptionInfoOptionType::Call)
        } else if str_eq(value, "put") {
            Ok(OptionInfoOptionType::Put)
        } else {
            Err("invalid value".to_owned())
        }
    }
}

/// Each value is read back from its name, and text that is read as a value
/// is that value's name: `from_str` undoes `to_string`.
pub proof fn lemma_option_info_option_type_names(v: OptionInfoOptionType)
    ensures
        OptionInfoOptionType::parse(v.name()) == Some(v),
        forall|s: Seq<char>| OptionInfoOptionType::parse(s) == Some(v) ==> s == v.name(),
{
    reveal_strlit("call");
    reveal_strlit("put");
    assert("call"@.len() == 4);
    assert("put"@.len() == 3);
}

impl std::str::FromStr for OptionInfoOptionType {
    type Err = ConversionError;

    fn from_str(value: &str) -> (r: Result<OptionInfoOptionType, ConversionError>)
        ensures
            match r {
                Ok(v) => OptionInfoOptionType::parse(value@) == Some(v),
                Err(e) => OptionInfoOptionType::parse(value@) is None && e@ == "invalid value"@,
            },
    {
        OptionInfoOptionType::from_str(value)
    }
}

impl FieldInput<OptionInfoOptionType> for OptionInfoOptionType {
    open spec fn converted(&self) -> Result<OptionInfoOptionType, Seq<char>> {
        Ok(*self)
    }

    fn into_field(self) -> (r: Result<OptionInfoOptionType, ConversionError>) {
        Ok(self)
    }
}

impl<'a> FieldInput<OptionInfoOptionType> for &'a str {
    open spec fn converted(&self) -> Result<OptionInfoOptionType, Seq<char>> {
        match OptionInfoOptionType::parse(self@) {
            Some(v) => Ok(v),
            None => Err("invalid value"@),
        }
    }

    fn into_field(self) -> (r: Result<OptionInfoOptionType, ConversionError>) {
        OptionInfoOptionType::from_str(self)
    }
}

impl<'a> FieldInput<OptionInfoOptionType> for &'a String {
    open spec fn converted(&self) -> Result<OptionInfoOptionType, Seq<char>> {
        match OptionInfoOptionType::parse(self@) {
            Some(v) => Ok(v),
            None => Err("invalid value"@),
        }
    }

    fn into_field(self) -> (r: Result<OptionInfoOptionType, ConversionError>) {
        OptionInfoOptionType::from_str(self.as_str())
    }
}

impl FieldInput<OptionInfoOptionType> for String {
    open spec fn converted(&self) -> Result<OptionInfoOptionType, Seq<char>> {
        match OptionInfoOptionType::parse(self@) {
            Some(v) => Ok(v),
            None => Err("invalid value"@),
        }
    }

    fn into_field(self) -> (r: Result<OptionInfoOptionType, ConversionError>) {
        OptionInfoOptionType::from_str(self.as_str())
    }
}

impl<'a> FieldInput<OptionInfoOptionType> for &'a OptionInfoOptionType {
    open spec fn converted(&self) -> Result<OptionInfoOptionType, Seq<char>> {
        Ok(**self)
    }

    fn into_field(self) -> (r: Result<OptionInfoOptionType, ConversionError>) {
        Ok(*self)
    }
}

/// What a builder setter makes of each kind of input for a `OptionInfoOptionType` field:
/// a value (or a reference to one) stands for itself, and text of any of the
/// three string kinds is read exactly as `from_str` reads it: the value that
/// the text names, or `invalid value`.
pub proof fn lemma_option_info_option_type_inputs(v: OptionInfoOptionType, t: &str, w: &String, u: String)
    ensures
        <OptionInfoOptionType as FieldInput<OptionInfoOptionType>>::converted(&v) == Ok::<OptionInfoOptionType, Seq<char>>(v),
        <&OptionInfoOptionType as FieldInput<OptionInfoOptionType>>::converted(&&v) == Ok::<OptionInfoOptionType, Seq<char>>(v),
        <&str as FieldInput<OptionInfoOptionType>>::converted(&t) matches Ok(x) ==> OptionInfoOptionType::parse(t@) == Some(x),
        <&str as FieldInput<OptionInfoOptionType>>::converted(&t) matches Err(e) ==> OptionInfoOptionType::parse(t@) is None && e == "invalid value"@,
        OptionInfoOptionType::parse(t@) matches Some(x) ==> <&str as FieldInput<OptionInfoOptionType>>::converted(&t) == Ok::<OptionInfoOptionType, Seq<char>>(x),
        <&String as FieldInput<OptionInfoOptionType>>::converted(&w) matches Ok(x) ==> OptionInfoOptionType::parse(w@) == Some(x),
        <&String as FieldInput<OptionInfoOptionType>>::converted(&w) matches Err(e) ==> OptionInfoOptionType::parse(w@) is None && e == "invalid value"@,
        OptionInfoOptionType::parse(w@) matches Some(x) ==> <&String as FieldInput<OptionInfoOptionType>>::converted(&w) == Ok::<OptionInfoOptionType, Seq<char>>(x),
        <String as FieldInput<OptionInfoOptionType>>::converted(&u) matches Ok(x) ==> OptionInfoOptionType::parse(u@) == Some(x),
        <String as FieldInput<OptionInfoOptionType>>::converted(&u) matches Err(e) ==> OptionInfoOptionType::parse(u@) is None && e == "invalid value"@,
        OptionInfoOptionType::parse(u@) matches Some(x) ==> <String as FieldInput<OptionInfoOptionType>>::converted(&u) == Ok::<OptionInfoOptionType, Seq<char>>(x),
{
}

impl<'a> TryFrom<&'a str> for OptionInfoOptionType {
    type Error = ConversionError;

    fn try_from(value: &'a str) -> (r: Result<OptionInfoOptionType, ConversionError>)
        ensures
            match r {
                Ok(v) => OptionInfoOptionType::parse(value@) == Some(v),
                Err(e) => OptionInfoOptionType::parse(value@) is None && e@ == "invalid value"@,
            },
    {
        OptionInfoOptionType::from_str(value)
    }
}

/// The contract of this conversion is the one on its `try_from` above;
/// nothing is claimed through the generic specification.
impl<'a> vstd::std_specs::convert::TryFromSpecImpl<&'a str> for OptionInfoOptionType {
    open spec fn obeys_try_from_spec() -> bool {
        false
    }

    open spec fn try_from_spec(value: &'a str) -> Result<OptionInfoOptionType, ConversionError> {
        arbitrary()
    }
}

impl<'a> TryFrom<&'a String> for OptionInfoOptionType {
    type Error = ConversionError;

    fn try_from(value: &'a String) -> (r: Result<OptionInfoOptionType, ConversionError>)
        ensures
            match r {
                Ok(v) => OptionInfoOptionType::parse(value@) == Some(v),
                Err(e) => OptionInfoOptionType::parse(value@) is None && e@ == "invalid value"@,
            },
    {
        OptionInfoOptionType::from_str(value.as_str())
    }
}

/// The contract of this conversion is the one on its `try_from` above;
/// nothing is claimed through the generic specification.
impl<'a> vstd::std_specs::convert::TryFromSpecImpl<&'a String> for OptionInfoOptionType {
    open spec fn obeys_try_from_spec() -> bool {
        false
    }

    open spec fn try_from_spec(value: &'a String) -> Result<OptionInfoOptionType, ConversionError> {
        arbitrary()
    }
}

impl TryFrom<String> for OptionInfoOptionType {
    type Error = ConversionError;

    fn try_from(value: String) -> (r: Result<OptionInfoOptionType, ConversionError>)
        ensures
            match r {
                Ok(v) => OptionInfoOptionType::parse(value@) == Some(v),
                Err(e) => OptionInfoOptionType::parse(value@) is None && e@ == "invalid value"@,
            },
    {
        OptionInfoOptionType::from_str(value.as_str())
    }
}

/// The contract of this conversion is the one on its `try_from` above;
/// nothing is claimed through the generic specification.
impl vstd::std_specs::convert::TryFromSpecImpl<String> for OptionInfoOptionType {
    open spec fn obeys_try_from_spec() -> bool {
        false
    }

    open spec fn try_from_spec(value: String) -> Result<OptionInfoOptionType, ConversionError> {
        arbitrary()
    }
}

} // verus!
