//! Time bounds given in requests: RFC 3339 text, normalised to UTC.

use vstd::prelude::*;

verus! {

/// What `chrono` makes of an RFC 3339 timestamp: `None` when
/// `DateTime::parse_from_rfc3339` refuses the text, otherwise the instant converted to
/// UTC and written back by `DateTime::to_rfc3339`.
pub uninterp spec fn utc_rfc3339_text(text: Seq<char>) -> Option<Seq<char>>;

/// Calls `chrono::DateTime::parse_from_rfc3339`, converts the instant with
/// `with_timezone(&chrono::Utc)` and writes it with `to_rfc3339`. The contract names the
/// result as a function of the text; the calendar arithmetic is not restated.
#[verifier::external_body]
fn rfc3339_as_utc(text: &str) -> (normalized: Option<String>)
    ensures
        normalized.deep_view() == utc_rfc3339_text(text@),
{
    match chrono::DateTime::parse_from_rfc3339(text) {
        Ok(t) => Some(t.with_timezone(&chrono::Utc).to_rfc3339()),
        Err(_) => None,
    }
}

/// The bound a time parameter sets: absent when the parameter is absent or is not an
/// RFC 3339 timestamp, otherwise the instant in UTC.
pub open spec fn spec_time_bound(text: Option<Seq<char>>) -> Option<Seq<char>> {
    match text {
        Some(t) => utc_rfc3339_text(t),
        None => None,
    }
}

/// An absent time parameter sets no bound; a given one sets the bound that chrono's
/// RFC 3339 reading gives for that parameter's own text, and none when it is not such a
/// timestamp.
pub proof fn lemma_time_bound_from_own_text(text: Seq<char>)
    ensures
        spec_time_bound(None) is None,
        spec_time_bound(Some(text)) == utc_rfc3339_text(text),
{
}

/// Reads a time parameter of a request as a UTC bound.
pub fn utc_time_bound(text: Option<&str>) -> (bound: Option<String>)
    ensures
        bound.deep_view() == spec_time_bound(text.deep_view()),
{
    match text {
        Some(t) => rfc3339_as_utc(t),
        None => None,
    }
}

} // verus!
