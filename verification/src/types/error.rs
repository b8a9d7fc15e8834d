use vstd::prelude::*;

verus! {

/// Error from a conversion into one of the schema's validated types, or
/// from building a record: its human readable message, for example
/// `invalid value`.  It displays, and debug-prints, as that message.
pub type ConversionError = String;

} // verus!
