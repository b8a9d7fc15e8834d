use vstd::prelude::*;

verus! {

/// `c` is one of the ASCII letters `A` to `Z`.
pub open spec fn is_ascii_upper(c: char) -> bool {
    'A' <= c && c <= 'Z'
}

/// `c` is one of the ASCII digits `0` to `9`.
pub open spec fn is_ascii_digit(c: char) -> bool {
    '0' <= c && c <= '9'
}

/// `s` consists of exactly `n` ASCII upper-case letters.
pub open spec fn is_upper_code(s: Seq<char>, n: nat) -> bool {
    &&& s.len() == n
    &&& forall|i: int| 0 <= i < s.len() ==> is_ascii_upper(#[trigger] s[i])
}

/// The `count` characters of `s` from `start` on are ASCII digits.
pub open spec fn digits_at(s: Seq<char>, start: int, count: int) -> bool {
    forall|i: int| start <= i < start + count ==> is_ascii_digit(#[trigger] s[i])
}

/// An ISO 4217 currency code: three upper-case letters (`^[A-Z]{3}$`).
pub open spec fn is_currency_code(s: Seq<char>) -> bool {
    is_upper_code(s, 3)
}

/// An ISO 10383 market identifier code: four upper-case letters (`^[A-Z]{4}$`).
pub open spec fn is_market_identifier(s: Seq<char>) -> bool {
    is_upper_code(s, 4)
}

/// A date in the shape `YYYY-MM-DD` (`^\d{4}-\d{2}-\d{2}$`).
pub open spec fn is_calendar_date(s: Seq<char>) -> bool {
    &&& s.len() == 10
    &&& digits_at(s, 0, 4)
    &&& s[4] == '-'
    &&& digits_at(s, 5, 2)
    &&& s[7] == '-'
    &&& digits_at(s, 8, 2)
}

/// An expiry series in one of the shapes `YYYY-MM`, `YYYY-Www` or `YYYY-MM-DD`
/// (`^\d{4}(-\d{2}|-W\d{2}|-\d{2}-\d{2})$`).
pub open spec fn is_expiry_series(s: Seq<char>) -> bool {
    &&& s.len() >= 7
    &&& digits_at(s, 0, 4)
    &&& s[4] == '-'
    &&& {
        ||| s.len() == 7 && digits_at(s, 5, 2)
        ||| s.len() == 8 && s[5] == 'W' && digits_at(s, 6, 2)
        ||| s.len() == 10 && digits_at(s, 5, 2) && s[7] == '-' && digits_at(s, 8, 2)
    }
}

/// A symbol: at least one character.
pub open spec fn is_symbol(s: Seq<char>) -> bool {
    s.len() >= 1
}

/// Message of the error for text that is not a currency code.
pub open spec fn currency_mismatch() -> Seq<char> {
    "doesn't match pattern \"^[A-Z]{3}$\""@
}

/// Message of the error for text that is not a market identifier code.
pub open spec fn market_identifier_mismatch() -> Seq<char> {
    "doesn't match pattern \"^[A-Z]{4}$\""@
}

/// Message of the error for text that is not a calendar date.
pub open spec fn calendar_date_mismatch() -> Seq<char> {
    "doesn't match pattern \"^\\d{4}-\\d{2}-\\d{2}$\""@
}

/// Message of the error for text that is not an expiry series.
pub open spec fn expiry_series_mismatch() -> Seq<char> {
    "doesn't match pattern \"^\\d{4}(-\\d{2}|-W\\d{2}|-\\d{2}-\\d{2})$\""@
}

/// Message of the error for an empty symbol.
pub open spec fn symbol_too_short() -> Seq<char> {
    "shorter than 1 characters"@
}

/// Every calendar date (`YYYY-MM-DD`) is also an expiry series: the schema's
/// expiry series admit the daily shape.
pub proof fn lemma_calendar_date_is_expiry_series(s: Seq<char>)
    requires
        is_calendar_date(s),
    ensures
        is_expiry_series(s),
{
}

/// The schema's pattern for currency codes.
pub open spec fn currency_pattern() -> Seq<char> {
    "^[A-Z]{3}$"@
}

/// The schema's pattern for market identifier codes.
pub open spec fn market_identifier_pattern() -> Seq<char> {
    "^[A-Z]{4}$"@
}

/// The schema's pattern for calendar dates.
pub open spec fn calendar_date_pattern() -> Seq<char> {
    "^\\d{4}-\\d{2}-\\d{2}$"@
}

/// The schema's pattern for expiry series.
pub open spec fn expiry_series_pattern() -> Seq<char> {
    "^\\d{4}(-\\d{2}|-W\\d{2}|-\\d{2}-\\d{2})$"@
}

/// One of the four patterns that the schema uses.
pub open spec fn is_schema_pattern(p: Seq<char>) -> bool {
    ||| p == currency_pattern()
    ||| p == market_identifier_pattern()
    ||| p == calendar_date_pattern()
    ||| p == expiry_series_pattern()
}

/// Searches `text` for a match of the regular expression `pattern` with
/// `regress::Regex::new` (default flags: not multi-line, case-sensitive) and
/// `regress::Regex::find`.
///
/// Trusted: for each of the schema's four patterns the contract states the
/// language that the pattern denotes under ECMAScript semantics, as regress
/// implements them: `^` and `$` match only at the start and the end of the
/// text, `[A-Z]` is the ASCII range, `\d` is `[0-9]`, `{n}` repeats exactly
/// `n` times.  `requires` admits only those patterns, all of which compile,
/// so the `unwrap` never panics.
#[verifier::external_body]
pub(crate) fn pattern_found(pattern: &str, text: &str) -> (r: bool)
    requires
        is_schema_pattern(pattern@),
    ensures
        pattern@ == currency_pattern() ==> (r <==> is_currency_code(text@)),
        pattern@ == market_identifier_pattern() ==> (r <==> is_market_identifier(text@)),
        pattern@ == calendar_date_pattern() ==> (r <==> is_calendar_date(text@)),
        pattern@ == expiry_series_pattern() ==> (r <==> is_expiry_series(text@)),
{
    regress::Regex::new(pattern).unwrap().find(text).is_some()
}

/// Whether two strings hold the same characters.
pub(crate) fn str_eq(a: &str, b: &str) -> (r: bool)
    ensures
        r == (a@ == b@),
{
    let x: String = a.to_owned();
    let y: String = b.to_owned();
    x == y
}

} // verus!
