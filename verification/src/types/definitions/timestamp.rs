use vstd::prelude::*;

use crate::types::error::ConversionError;

verus! {

/// What chrono gives for `text` read as a `DateTime<Utc>` with its `FromStr`
/// (a relaxed RFC 3339): the Unix seconds and the nanoseconds since the last
/// whole non-leap second, or the message of chrono's `ParseError`.
pub uninterp spec fn utc_parse(text: Seq<char>) -> Result<(i64, u32), Seq<char>>;

/// What chrono's `Display` writes for `DateTime::<Utc>::from_timestamp(secs, nanos)`
/// (`YYYY-MM-DD HH:MM:SS[.fraction] UTC`), or `None` where `from_timestamp`
/// gives `None`.
pub uninterp spec fn utc_render(secs: i64, nanos: u32) -> Option<Seq<char>>;

/// `text.parse::<chrono::DateTime<chrono::Utc>>()`, read back through
/// `timestamp()` and `timestamp_subsec_nanos()`; a `ParseError` becomes its message.
///
/// Trusted: the result is what `utc_parse` names.  A parsed instant can be
/// written again (`utc_render` is `Some` on it): chrono documents that
/// `from_timestamp` round-trips with `timestamp` and `timestamp_subsec_nanos`.
#[verifier::external_body]
fn parse_utc(text: &str) -> (r: Result<(i64, u32), String>)
    ensures
        match r {
            Ok(p) => utc_parse(text@) == Ok::<(i64, u32), Seq<char>>(p) && utc_render(p.0, p.1) is Some,
            Err(m) => utc_parse(text@) == Err::<(i64, u32), Seq<char>>(m@),
        },
{
    match text.parse::<chrono::DateTime<chrono::Utc>>() {
        Ok(t) => Ok((t.timestamp(), t.timestamp_subsec_nanos())),
        Err(e) => Err(e.to_string()),
    }
}

/// `chrono::DateTime::<chrono::Utc>::from_timestamp(secs, nanos)`, written
/// with chrono's `Display`.
///
/// Trusted: the result is what `utc_render` names; `from_timestamp` does not
/// panic, it gives `None` on an instant out of range or an invalid nanosecond.
#[verifier::external_body]
fn render_utc(secs: i64, nanos: u32) -> (r: Option<String>)
    ensures
        match r {
            Some(s) => utc_render(secs, nanos) == Some(s@),
            None => utc_render(secs, nanos) is None,
        },
{
    match chrono::DateTime::<chrono::Utc>::from_timestamp(secs, nanos) {
        Some(t) => Some(t.to_string()),
        None => None,
    }
}

/// An instant in UTC, as ISO 8601 timestamps denote it.
///
/// It is held as the number of seconds since 1970-01-01 00:00:00 UTC and
/// the nanoseconds since the last whole non-leap second (a leap second has
/// nanoseconds of 1,000,000,000 or more), and it is always an instant that
/// chrono's `DateTime<Utc>` can represent.
#[derive(Clone, Copy, Debug, PartialEq, Eq, Structural, Hash)]
pub struct Timestamp {
    secs: i64,
    nanos: u32,
}

impl Timestamp {
    #[verifier::type_invariant]
    spec fn representable(self) -> bool {
        utc_render(self.secs, self.nanos) is Some
    }
}

impl View for Timestamp {
    type V = (i64, u32);

    closed spec fn view(&self) -> (i64, u32) {
        (self.secs, self.nanos)
    }
}

impl Timestamp {
    /// Reads `value` as chrono reads a `DateTime<Utc>`.
    pub fn from_str(value: &str) -> (r: Result<Timestamp, ConversionError>)
        ensures
            match r {
                Ok(t) => utc_parse(value@) == Ok::<(i64, u32), Seq<char>>(t@),
                Err(e) => utc_parse(value@) == Err::<(i64, u32), Seq<char>>(e@),
            },
    {
        match parse_utc(value) {
            Ok(p) => Ok(Timestamp { secs: p.0, nanos: p.1 }),
            Err(m) => Err(m),
        }
    }

    /// The instant `secs` seconds and `nanos` nanoseconds after the Unix
    /// epoch, where chrono can represent it.
    pub fn from_timestamp(secs: i64, nanos: u32) -> (r: Option<Timestamp>)
        ensures
            r is Some <==> utc_render(secs, nanos) is Some,
            r matches Some(t) ==> t@ == (secs, nanos),
    {
        match render_utc(secs, nanos) {
            Some(_) => Some(Timestamp { secs, nanos }),
            None => None,
        }
    }

    /// Seconds since the Unix epoch.
    pub fn timestamp(&self) -> (r: i64)
        ensures
            r == self@.0,
            utc_render(self@.0, self@.1) is Some,
    {
        proof {
            use_type_invariant(self);
        }
        self.secs
    }

    /// Nanoseconds since the last whole non-leap second.
    pub fn timestamp_subsec_nanos(&self) -> (r: u32)
        ensures
            r == self@.1,
            utc_render(self@.0, self@.1) is Some,
    {
        proof {
            use_type_invariant(self);
        }
        self.nanos
    }

    /// The instant as chrono's `Display` writes it.
    pub fn to_string(&self) -> (r: String)
        ensures
            utc_render(self@.0, self@.1) == Some(r@),
    {
        proof {
            use_type_invariant(self);
        }
        match render_utc(self.secs, self.nanos) {
            Some(s) => s,
            None => String::new(),
        }
    }
}

impl std::str::FromStr for Timestamp {
    type Err = ConversionError;

    fn from_str(value: &str) -> (r: Result<Timestamp, ConversionError>)
        ensures
            match r {
                Ok(t) => utc_parse(value@) == Ok::<(i64, u32), Seq<char>>(t@),
                Err(e) => utc_parse(value@) == Err::<(i64, u32), Seq<char>>(e@),
            },
    {
        Timestamp::from_str(value)
    }
}

} // verus!
