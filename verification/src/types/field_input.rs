use vstd::prelude::*;

use super::error::ConversionError;

verus! {

/// A value that a builder setter accepts for a field of type `T`: a value of
/// the field's own type, or text from which a value of that type is read.
///
/// `converted` states, over views, what the conversion gives: the field's
/// value, or the message of the error.
pub trait FieldInput<T: DeepView>: Sized {
    /// The outcome of the conversion, over views.
    spec fn converted(&self) -> Result<T::V, Seq<char>>;

    /// Converts this input into a value of the field's type.
    fn into_field(self) -> (r: Result<T, ConversionError>)
        ensures
            match r {
                Ok(v) => self.converted() == Ok::<T::V, Seq<char>>(v.deep_view()),
                Err(e) => self.converted() == Err::<T::V, Seq<char>>(e@),
            },
    ;
}

/// The state of a builder's field after a setter got an input whose
/// conversion gave `c`: the value, or the message `prefix` followed by the
/// conversion's own message.
pub open spec fn supplied<V>(prefix: Seq<char>, c: Result<V, Seq<char>>) -> Result<V, Seq<char>> {
    match c {
        Ok(v) => Ok(v),
        Err(m) => Err(prefix + m),
    }
}

/// A builder field, over views.
pub open spec fn field_view<T: DeepView>(f: Result<T, String>) -> Result<T::V, Seq<char>> {
    match f {
        Ok(v) => Ok(v.deep_view()),
        Err(m) => Err(m@),
    }
}

/// A setter stores a converted value as it is, and a failed conversion as
/// `prefix` followed by the conversion's own message.
pub proof fn lemma_supplied<V>(prefix: Seq<char>, v: V, m: Seq<char>)
    ensures
        supplied(prefix, Ok::<V, Seq<char>>(v)) == Ok::<V, Seq<char>>(v),
        supplied(prefix, Err::<V, Seq<char>>(m)) == Err::<V, Seq<char>>(prefix + m),
        supplied(prefix, Err::<V, Seq<char>>(m)) matches Err(x) ==> x.subrange(0, prefix.len() as int) == prefix
            && x.subrange(prefix.len() as int, x.len() as int) == m,
{
    assert((prefix + m).subrange(0, prefix.len() as int) =~= prefix);
    assert((prefix + m).subrange(prefix.len() as int, (prefix + m).len() as int) =~= m);
}

/// A builder field is seen as the view of its value, or as the text of its message.
pub proof fn lemma_field_view<T: DeepView>(v: T, m: String)
    ensures
        field_view(Ok::<T, String>(v)) == Ok::<T::V, Seq<char>>(v.deep_view()),
        field_view(Err::<T, String>(m)) == Err::<T::V, Seq<char>>(m@),
{
}

/// The message that a builder records when a conversion fails: `prefix`
/// followed by the conversion's message.
pub(crate) fn conversion_failure(prefix: &str, e: ConversionError) -> (r: String)
    ensures
        r@ == prefix@ + e@,
{
    let mut s: String = prefix.to_owned();
    s.append(e.as_str());
    s
}

/// Records the outcome of a setter's conversion in a builder field.
pub(crate) fn record<T: DeepView, I: FieldInput<T>>(prefix: &str, value: I) -> (r: Result<T, String>)
    ensures
        field_view(r) == supplied(prefix@, value.converted()),
{
    match value.into_field() {
        Ok(v) => Ok(v),
        Err(e) => Err(conversion_failure(prefix, e)),
    }
}

} // verus!
