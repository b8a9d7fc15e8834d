//! Field types of volume figures.

pub use crate::types::error;

use vstd::prelude::*;

use crate::types::error::ConversionError;
use crate::types::field_input::FieldInput;
use crate::types::text::{is_symbol, symbol_too_short};

verus! {

/// Instrument identifier of volume figures.
///
/// The text of every value has at least one character.
#[derive(Debug, PartialEq, Eq, Hash, PartialOrd, Ord)]
pub struct VolumeInfoSymbol(String);

impl VolumeInfoSymbol {
    #[verifier::type_invariant]
    spec fn well_formed(self) -> bool {
        is_symbol(self.0@)
    }
}

impl View for VolumeInfoSymbol {
    type V = Seq<char>;

    closed spec fn view(&self) -> Seq<char> {
        self.0@
    }
}

impl DeepView for VolumeInfoSymbol {
    type V = Seq<char>;

    open spec fn deep_view(&self) -> Seq<char> {
        self@
    }
}

impl Clone for VolumeInfoSymbol {
    fn clone(&self) -> (r: Self)
        ensures
            r@ == self@,
    {
        proof {
            use_type_invariant(self);
        }
        VolumeInfoSymbol(self.0.clone())
    }
}

impl VolumeInfoSymbol {
    /// Validates `value`: it is accepted exactly when it has at least one character.
    pub fn from_str(value: &str) -> (r: Result<VolumeInfoSymbol, ConversionError>)
        ensures
            r is Ok <==> is_symbol(value@),
            r matches Ok(v) ==> v@ == value@,
            r matches Err(e) ==> e@ == symbol_too_short(),
    {
        if value.unicode_len() < 1 {
            return Err("shorter than 1 characters".to_owned());
        }
        Ok(VolumeInfoSymbol(value.to_owned()))
    }

    /// The text of this value.
    pub fn as_str(&self) -> (r: &str)
        ensures
            r@ == self@,
            is_symbol(r@),
    {
        proof {
            use_type_invariant(self);
        }
        self.0.as_str()
    }

    /// The text of this value, as an owned string.
    pub fn into_string(self) -> (r: String)
        ensures
            r@ == self@,
            is_symbol(r@),
    {
        proof {
            use_type_invariant(&self);
        }
        self.0
    }
}

impl std::str::FromStr for VolumeInfoSymbol {
    type Err = ConversionError;

    fn from_str(value: &str) -> (r: Result<VolumeInfoSymbol, ConversionError>)
        ensures
            r is Ok <==> is_symbol(value@),
            r matches Ok(v) ==> v@ == value@,
            r matches Err(e) ==> e@ == symbol_too_short(),
    {
        VolumeInfoSymbol::from_str(value)
    }
}

impl FieldInput<VolumeInfoSymbol> for VolumeInfoSymbol {
    open spec fn converted(&self) -> Result<Seq<char>, Seq<char>> {
        Ok(self@)
    }

    fn into_field(self) -> (r: Result<VolumeInfoSymbol, ConversionError>) {
        Ok(self)
    }
}

impl<'a> FieldInput<VolumeInfoSymbol> for &'a str {
    open spec fn converted(&self) -> Result<Seq<char>, Seq<char>> {
        if is_symbol(self@) {
            Ok(self@)
        } else {
            Err(symbol_too_short())
        }
    }

    fn into_field(self) -> (r: Result<VolumeInfoSymbol, ConversionError>) {
        VolumeInfoSymbol::from_str(self)
    }
}

impl<'a> FieldInput<VolumeInfoSymbol> for &'a String {
    open spec fn converted(&self) -> Result<Seq<char>, Seq<char>> {
        if is_symbol(self@) {
            Ok(self@)
        } else {
            Err(symbol_too_short())
        }
    }

    fn into_field(self) -> (r: Result<VolumeInfoSymbol, ConversionError>) {
        VolumeInfoSymbol::from_str(self.as_str())
    }
}

impl FieldInput<VolumeInfoSymbol> for String {
    open spec fn converted(&self) -> Result<Seq<char>, Seq<char>> {
        if is_symbol(self@) {
            Ok(self@)
        } else {
            Err(symbol_too_short())
        }
    }

    fn into_field(self) -> (r: Result<VolumeInfoSymbol, ConversionError>) {
        VolumeInfoSymbol::from_str(self.as_str())
    }
}

impl<'a> FieldInput<VolumeInfoSymbol> for &'a VolumeInfoSymbol {
    open spec fn converted(&self) -> Result<Seq<char>, Seq<char>> {
        Ok(self@)
    }

    fn into_field(self) -> (r: Result<VolumeInfoSymbol, ConversionError>) {
        Ok(self.clone())
    }
}

impl<'a> TryFrom<&'a str> for VolumeInfoSymbol {
    type Error = ConversionError;

    fn try_from(value: &'a str) -> (r: Result<VolumeInfoSymbol, ConversionError>)
        ensures
            r is Ok <==> is_symbol(value@),
            r matches Ok(v) ==> v@ == value@,
            r matches Err(e) ==> e@ == symbol_too_short(),
    {
        VolumeInfoSymbol::from_str(value)
    }
}

/// The contract of this conversion is the one on its `try_from` above;
/// nothing is claimed through the generic specification.
impl<'a> vstd::std_specs::convert::TryFromSpecImpl<&'a str> for VolumeInfoSymbol {
    open spec fn obeys_try_from_spec() -> bool {
        false
    }

    open spec fn try_from_spec(value: &'a str) -> Result<VolumeInfoSymbol, ConversionError> {
        arbitrary()
    }
}

impl<'a> TryFrom<&'a String> for VolumeInfoSymbol {
    type Error = ConversionError;

    fn try_from(value: &'a String) -> (r: Result<VolumeInfoSymbol, ConversionError>)
        ensures
            r is Ok <==> is_symbol(value@),
            r matches Ok(v) ==> v@ == value@,
            r matches Err(e) ==> e@ == symbol_too_short(),
    {
        VolumeInfoSymbol::from_str(value.as_str())
    }
}

/// The contract of this conversion is the one on its `try_from` above;
/// nothing is claimed through the generic specification.
impl<'a> vstd::std_specs::convert::TryFromSpecImpl<&'a String> for VolumeInfoSymbol {
    open spec fn obeys_try_from_spec() -> bool {
        false
    }

    open spec fn try_from_spec(value: &'a String) -> Result<VolumeInfoSymbol, ConversionError> {
        arbitrary()
    }
}

impl TryFrom<String> for VolumeInfoSymbol {
    type Error = ConversionError;

    fn try_from(value: String) -> (r: Result<VolumeInfoSymbol, ConversionError>)
        ensures
            r is Ok <==> is_symbol(value@),
            r matches Ok(v) ==> v@ == value@,
            r matches Err(e) ==> e@ == symbol_too_short(),
    {
        VolumeInfoSymbol::from_str(value.as_str())
    }
}

/// The contract of this conversion is the one on its `try_from` above;
/// nothing is claimed through the generic specification.
impl vstd::std_specs::convert::TryFromSpecImpl<String> for VolumeInfoSymbol {
    open spec fn obeys_try_from_spec() -> bool {
        false
    }

    open spec fn try_from_spec(value: String) -> Result<VolumeInfoSymbol, ConversionError> {
        arbitrary()
    }
}

/// What a builder setter makes of each kind of input for a `VolumeInfoSymbol` field:
/// a value (or a reference to one) stands for itself, and text of any of the
/// three string kinds is read exactly as `from_str` reads it: accepted, with
/// its own text, when it has at least one character, refused with `from_str`'s message otherwise.
pub proof fn lemma_volume_info_symbol_inputs(v: VolumeInfoSymbol, o: Option<VolumeInfoSymbol>, t: &str, w: &String, u: String)
    ensures
        <VolumeInfoSymbol as FieldInput<VolumeInfoSymbol>>::converted(&v) == Ok::<Seq<char>, Seq<char>>(v@),
        <&VolumeInfoSymbol as FieldInput<VolumeInfoSymbol>>::converted(&&v) == Ok::<Seq<char>, Seq<char>>(v@),
        <&str as FieldInput<VolumeInfoSymbol>>::converted(&t) is Ok <==> is_symbol(t@),
        <&str as FieldInput<VolumeInfoSymbol>>::converted(&t) matches Ok(x) ==> x == t@,
        <&str as FieldInput<VolumeInfoSymbol>>::converted(&t) matches Err(e) ==> e == symbol_too_short(),
        <&String as FieldInput<VolumeInfoSymbol>>::converted(&w) is Ok <==> is_symbol(w@),
        <&String as FieldInput<VolumeInfoSymbol>>::converted(&w) matches Ok(x) ==> x == w@,
        <&String as FieldInput<VolumeInfoSymbol>>::converted(&w) matches Err(e) ==> e == symbol_too_short(),
        <String as FieldInput<VolumeInfoSymbol>>::converted(&u) is Ok <==> is_symbol(u@),
        <String as FieldInput<VolumeInfoSymbol>>::converted(&u) matches Ok(x) ==> x == u@,
        <String as FieldInput<VolumeInfoSymbol>>::converted(&u) matches Err(e) ==> e == symbol_too_short(),
{
}

} // verus!
